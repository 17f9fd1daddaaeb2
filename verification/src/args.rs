//! Launch-argument building for the two children, and the image
//! records that remember what each was started with.
//!
//! In simple mode the argument list is built from the configuration; in
//! advanced mode a free-form argument string is split on whitespace and
//! walked token by token, each recognized flag assigning the token after
//! it into the image record.

use vstd::prelude::*;
use crate::fmt::{ascii, lit, push_lit};
use crate::process::Process;
use crate::stats::range_eq;

verus! {

/// Whitespace for argument splitting.
pub open spec fn is_space(b: u8) -> bool {
    b == 32 || b == 9 || b == 10 || b == 13
}

/// Length of the maximal run of non-space bytes starting at `i`.
pub open spec fn word_run(s: Seq<u8>, i: int) -> int
    decreases s.len() - i when 0 <= i <= s.len()
{
    if i < 0 || i >= s.len() || is_space(s[i]) {
        0
    } else {
        1 + word_run(s, i + 1)
    }
}

/// The whitespace-separated tokens of `s` from position `i` on.
pub open spec fn split_ws_spec(s: Seq<u8>, i: int) -> Seq<Seq<u8>>
    decreases s.len() - i when 0 <= i <= s.len()
{
    if i >= s.len() {
        Seq::empty()
    } else if is_space(s[i]) {
        split_ws_spec(s, i + 1)
    } else {
        let e = i + word_run(s, i);
        if i < e <= s.len() {
            seq![s.subrange(i, e)] + split_ws_spec(s, e)
        } else {
            Seq::empty()
        }
    }
}

/// A word run stays within the text.
proof fn lemma_word_run_range(s: Seq<u8>, i: int)
    requires
        0 <= i <= s.len(),
    ensures
        0 <= word_run(s, i),
        i + word_run(s, i) <= s.len(),
        i < s.len() && !is_space(s[i]) ==> word_run(s, i) >= 1,
    decreases s.len() - i,
{
    if i < s.len() && !is_space(s[i]) {
        lemma_word_run_range(s, i + 1);
    }
}

/// Split text on whitespace into owned tokens.
pub fn split_whitespace(s: &Vec<u8>) -> (r: Vec<Vec<u8>>)
    ensures
        r.deep_view() == split_ws_spec(s@, 0),
{
    let len = s.len();
    let mut out: Vec<Vec<u8>> = Vec::new();
    let mut i: usize = 0;
    while i < len
        invariant
            i <= len,
            len == s@.len(),
            split_ws_spec(s@, 0) == out.deep_view() + split_ws_spec(s@, i as int),
        decreases len - i,
    {
        if s[i] == 32 || s[i] == 9 || s[i] == 10 || s[i] == 13 {
            i = i + 1;
        } else {
            proof {
                lemma_word_run_range(s@, i as int);
            }
            let mut j = i;
            while j < len && !(s[j] == 32 || s[j] == 9 || s[j] == 10 || s[j] == 13)
                invariant
                    i <= j <= len,
                    len == s@.len(),
                    word_run(s@, i as int) == (j - i) + word_run(s@, j as int),
                decreases len - j,
            {
                j = j + 1;
            }
            assert(word_run(s@, j as int) == 0);
            let tok = crate::fmt::copy_range(s, i, j);
            let ghost pre = out.deep_view();
            out.push(tok);
            assert(out.deep_view() =~~= pre + seq![s@.subrange(i as int, j as int)]);
            i = j;
        }
    }
    assert(out.deep_view() + split_ws_spec(s@, len as int) =~~= out.deep_view());
    out
}

impl Process {
    /// Split a free-form argument string into tokens.
    pub fn parse_args(args: &Vec<u8>) -> (r: Vec<Vec<u8>>)
        ensures
            r.deep_view() == split_ws_spec(args@, 0),
    {
        split_whitespace(args)
    }
}

/// What the pool was started with: the values shown in the UI for the
/// lifetime of the child.
pub struct ImgP2pool {
    pub mini: bool,
    pub address: Vec<u8>,
    pub host: Vec<u8>,
    pub rpc: Vec<u8>,
    pub zmq: Vec<u8>,
    pub out_peers: Vec<u8>,
    pub in_peers: Vec<u8>,
    pub log_level: Vec<u8>,
}

/// The mathematical image of an `ImgP2pool`.
pub struct ImgP2poolView {
    pub mini: bool,
    pub address: Seq<u8>,
    pub host: Seq<u8>,
    pub rpc: Seq<u8>,
    pub zmq: Seq<u8>,
    pub out_peers: Seq<u8>,
    pub in_peers: Seq<u8>,
    pub log_level: Seq<u8>,
}

impl View for ImgP2pool {
    type V = ImgP2poolView;

    open spec fn view(&self) -> ImgP2poolView {
        ImgP2poolView {
            mini: self.mini,
            address: self.address@,
            host: self.host@,
            rpc: self.rpc@,
            zmq: self.zmq@,
            out_peers: self.out_peers@,
            in_peers: self.in_peers@,
            log_level: self.log_level@,
        }
    }
}

impl ImgP2pool {
    /// A blank image: the mini sidechain, nothing else known.
    pub fn new() -> (r: ImgP2pool)
        ensures
            r@.mini == true,
            r@.address.len() == 0,
            r@.host.len() == 0,
            r@.rpc.len() == 0,
            r@.zmq.len() == 0,
            r@.out_peers.len() == 0,
            r@.in_peers.len() == 0,
            r@.log_level.len() == 0,
    {
        ImgP2pool {
            mini: true,
            address: Vec::new(),
            host: Vec::new(),
            rpc: Vec::new(),
            zmq: Vec::new(),
            out_peers: Vec::new(),
            in_peers: Vec::new(),
            log_level: Vec::new(),
        }
    }
}

/// What the miner was started with.
pub struct ImgXmrig {
    pub threads: Vec<u8>,
    pub url: Vec<u8>,
}

/// The mathematical image of an `ImgXmrig`.
pub struct ImgXmrigView {
    pub threads: Seq<u8>,
    pub url: Seq<u8>,
}

impl View for ImgXmrig {
    type V = ImgXmrigView;

    open spec fn view(&self) -> ImgXmrigView {
        ImgXmrigView { threads: self.threads@, url: self.url@ }
    }
}

impl ImgXmrig {
    /// The defaults: one thread against the local pool.
    pub fn new() -> (r: ImgXmrig)
        ensures
            r@.threads == ascii("1"@),
            r@.url == ascii("127.0.0.1:3333 (Local P2Pool)"@),
    {
        proof {
            reveal_strlit("1");
            reveal_strlit("127.0.0.1:3333 (Local P2Pool)");
        }
        ImgXmrig { threads: lit("1"), url: lit("127.0.0.1:3333 (Local P2Pool)") }
    }
}

/// One step of the advanced-mode walk: the token after a recognized
/// flag updates the image (or, for the data directory, the stats file
/// path), and `--mini` itself marks the mini sidechain on whatever
/// follows it.
pub open spec fn p2pool_step(
    img: ImgP2poolView,
    api: Seq<u8>,
    last: Seq<u8>,
    tok: Seq<u8>,
) -> (ImgP2poolView, Seq<u8>) {
    if last == ascii("--mini"@) {
        (ImgP2poolView { mini: true, ..img }, api)
    } else if last == ascii("--wallet"@) {
        (ImgP2poolView { address: tok, ..img }, api)
    } else if last == ascii("--host"@) {
        (ImgP2poolView { host: tok, ..img }, api)
    } else if last == ascii("--rpc-port"@) {
        (ImgP2poolView { rpc: tok, ..img }, api)
    } else if last == ascii("--zmq-port"@) {
        (ImgP2poolView { zmq: tok, ..img }, api)
    } else if last == ascii("--loglevel"@) {
        (ImgP2poolView { log_level: tok, ..img }, api)
    } else if last == ascii("--out-peers"@) {
        (ImgP2poolView { out_peers: tok, ..img }, api)
    } else if last == ascii("--in-peers"@) {
        (ImgP2poolView { in_peers: tok, ..img }, api)
    } else if last == ascii("--data-api"@) {
        (img, tok)
    } else {
        (img, api)
    }
}

/// Walk the token list, remembering the previous token as the flag the
/// current one may be a value for.
pub open spec fn p2pool_fold(
    img: ImgP2poolView,
    api: Seq<u8>,
    last: Seq<u8>,
    toks: Seq<Seq<u8>>,
) -> (ImgP2poolView, Seq<u8>)
    decreases toks.len(),
{
    if toks.len() == 0 {
        (img, api)
    } else {
        let stepped = p2pool_step(img, api, last, toks[0]);
        p2pool_fold(stepped.0, stepped.1, toks[0], toks.skip(1))
    }
}

/// The pool's configuration snapshot, the inputs the argument builder
/// reads.
pub struct P2poolConfig {
    /// Simple mode: a fixed argument list against a chosen remote node.
    pub simple: bool,
    /// Advanced mode: a free-form argument string overriding everything,
    /// empty to build from the fields below.
    pub arguments: Vec<u8>,
    pub address: Vec<u8>,
    /// The chosen remote node, resolved to its address and ports.
    pub node_ip: Vec<u8>,
    pub node_rpc: Vec<u8>,
    pub node_zmq: Vec<u8>,
    pub selected_ip: Vec<u8>,
    pub selected_rpc: Vec<u8>,
    pub selected_zmq: Vec<u8>,
    pub log_level: Vec<u8>,
    pub out_peers: Vec<u8>,
    pub in_peers: Vec<u8>,
    pub mini: bool,
}

/// The simple-mode argument list.
pub open spec fn p2pool_simple_args(state: P2poolConfig, api_dir: Seq<u8>) -> Seq<Seq<u8>> {
    seq![
        ascii("--wallet"@),
        state.address@,
        ascii("--host"@),
        state.node_ip@,
        ascii("--rpc-port"@),
        state.node_rpc@,
        ascii("--zmq-port"@),
        state.node_zmq@,
        ascii("--data-api"@),
        api_dir,
        ascii("--local-api"@),
        ascii("--no-color"@),
        ascii("--mini"@),
    ]
}

/// The advanced-mode argument list built from the fields.
pub open spec fn p2pool_built_args(state: P2poolConfig, api_dir: Seq<u8>) -> Seq<Seq<u8>> {
    seq![
        ascii("--wallet"@),
        state.address@,
        ascii("--host"@),
        state.selected_ip@,
        ascii("--rpc-port"@),
        state.selected_rpc@,
        ascii("--zmq-port"@),
        state.selected_zmq@,
        ascii("--loglevel"@),
        state.log_level@,
        ascii("--out-peers"@),
        state.out_peers@,
        ascii("--in-peers"@),
        state.in_peers@,
        ascii("--data-api"@),
        api_dir,
        ascii("--local-api"@),
        ascii("--no-color"@),
    ] + if state.mini {
        seq![ascii("--mini"@)]
    } else {
        Seq::<Seq<u8>>::empty()
    }
}

/// The stats file's path under a data directory.
pub open spec fn stats_path(api_dir: Seq<u8>) -> Seq<u8> {
    api_dir + ascii("/local/stats"@)
}

/// Append the stats file's relative path to a data directory.
fn make_stats_path(api_dir: &Vec<u8>) -> (r: Vec<u8>)
    ensures
        r@ == stats_path(api_dir@),
{
    let mut p = api_dir.clone();
    assert(p@ == api_dir@);
    proof {
        reveal_strlit("/local/stats");
    }
    push_lit(&mut p, "/local/stats");
    p
}

/// Push an owned copy of an ASCII literal token.
fn push_tok(args: &mut Vec<Vec<u8>>, s: &str)
    requires
        vstd::utf8::is_ascii_chars(s@),
    ensures
        final(args).deep_view() =~~= old(args).deep_view() + seq![ascii(s@)],
{
    let t = lit(s);
    let ghost pre = args.deep_view();
    args.push(t);
    assert(args.deep_view() =~~= pre + seq![ascii(s@)]);
}

/// Push an owned copy of a value token.
fn push_val(args: &mut Vec<Vec<u8>>, v: &Vec<u8>)
    ensures
        final(args).deep_view() =~~= old(args).deep_view() + seq![v@],
{
    let t = v.clone();
    assert(t@ == v@);
    let ghost pre = args.deep_view();
    args.push(t);
    assert(args.deep_view() =~~= pre + seq![v@]);
}

/// Build the pool's launch arguments and set its image.
///
/// Simple mode gives the fixed mini-sidechain argument list against the
/// chosen node. Advanced mode with an argument string splits it and
/// walks the tokens into the image; otherwise the list is built from
/// the configuration's fields. The second result is the path of the
/// stats file under the data directory in force.
pub fn build_p2pool_args_and_mutate_img(
    state: &P2poolConfig,
    api_dir: &Vec<u8>,
    img: &mut ImgP2pool,
) -> (r: (Vec<Vec<u8>>, Vec<u8>))
    ensures
        state.simple ==> {
            &&& r.0.deep_view() == p2pool_simple_args(*state, api_dir@)
            &&& r.1@ == stats_path(api_dir@)
            &&& final(img)@ == (ImgP2poolView {
                mini: true,
                address: state.address@,
                host: state.node_ip@,
                rpc: state.node_rpc@,
                zmq: state.node_zmq@,
                log_level: ascii("3"@),
                out_peers: ascii("10"@),
                in_peers: ascii("10"@),
            })
        },
        !state.simple && state.arguments@.len() > 0 ==> {
            &&& r.0.deep_view() == split_ws_spec(state.arguments@, 0)
            &&& final(img)@ == p2pool_fold(
                old(img)@,
                api_dir@,
                Seq::<u8>::empty(),
                split_ws_spec(state.arguments@, 0),
            ).0
            &&& r.1@ == stats_path(
                p2pool_fold(
                    old(img)@,
                    api_dir@,
                    Seq::<u8>::empty(),
                    split_ws_spec(state.arguments@, 0),
                ).1,
            )
        },
        !state.simple && state.arguments@.len() == 0 ==> {
            &&& r.0.deep_view() == p2pool_built_args(*state, api_dir@)
            &&& r.1@ == stats_path(api_dir@)
            &&& final(img)@ == (ImgP2poolView {
                mini: state.mini,
                address: state.address@,
                host: state.selected_ip@,
                rpc: state.selected_rpc@,
                zmq: state.selected_zmq@,
                log_level: state.log_level@,
                out_peers: state.out_peers@,
                in_peers: state.in_peers@,
            })
        },
{
    proof {
        reveal_strlit("--wallet");
        reveal_strlit("--host");
        reveal_strlit("--rpc-port");
        reveal_strlit("--zmq-port");
        reveal_strlit("--data-api");
        reveal_strlit("--local-api");
        reveal_strlit("--no-color");
        reveal_strlit("--mini");
        reveal_strlit("--loglevel");
        reveal_strlit("--out-peers");
        reveal_strlit("--in-peers");
        reveal_strlit("3");
        reveal_strlit("10");
    }
    let mut args: Vec<Vec<u8>> = Vec::new();
    if state.simple {
        push_tok(&mut args, "--wallet");
        push_val(&mut args, &state.address);
        push_tok(&mut args, "--host");
        push_val(&mut args, &state.node_ip);
        push_tok(&mut args, "--rpc-port");
        push_val(&mut args, &state.node_rpc);
        push_tok(&mut args, "--zmq-port");
        push_val(&mut args, &state.node_zmq);
        push_tok(&mut args, "--data-api");
        push_val(&mut args, api_dir);
        push_tok(&mut args, "--local-api");
        push_tok(&mut args, "--no-color");
        push_tok(&mut args, "--mini");
        img.mini = true;
        img.address = state.address.clone();
        img.host = state.node_ip.clone();
        img.rpc = state.node_rpc.clone();
        img.zmq = state.node_zmq.clone();
        img.log_level = lit("3");
        img.out_peers = lit("10");
        img.in_peers = lit("10");
        assert(args.deep_view() =~~= p2pool_simple_args(*state, api_dir@));
        assert(img.address@ == state.address@);
        assert(img.host@ == state.node_ip@);
        assert(img.rpc@ == state.node_rpc@);
        assert(img.zmq@ == state.node_zmq@);
        (args, make_stats_path(api_dir))
    } else if state.arguments.len() > 0 {
        let tokens = split_whitespace(&state.arguments);
        let flag_mini = lit("--mini");
        let flag_wallet = lit("--wallet");
        let flag_host = lit("--host");
        let flag_rpc = lit("--rpc-port");
        let flag_zmq = lit("--zmq-port");
        let flag_log = lit("--loglevel");
        let flag_out = lit("--out-peers");
        let flag_in = lit("--in-peers");
        let flag_api = lit("--data-api");
        let mut api: Vec<u8> = api_dir.clone();
        assert(api@ == api_dir@);
        let mut last: Vec<u8> = Vec::new();
        let ghost toks = tokens.deep_view();
        let ghost img0 = img@;
        let n = tokens.len();
        let mut i: usize = 0;
        proof {
            assert(toks.skip(0) =~= toks);
        }
        while i < n
            invariant
                i <= n,
                n == toks.len(),
                toks == tokens.deep_view(),
                flag_mini@ == ascii("--mini"@),
                flag_wallet@ == ascii("--wallet"@),
                flag_host@ == ascii("--host"@),
                flag_rpc@ == ascii("--rpc-port"@),
                flag_zmq@ == ascii("--zmq-port"@),
                flag_log@ == ascii("--loglevel"@),
                flag_out@ == ascii("--out-peers"@),
                flag_in@ == ascii("--in-peers"@),
                flag_api@ == ascii("--data-api"@),
                args.deep_view() == toks.take(i as int),
                p2pool_fold(img0, api_dir@, Seq::<u8>::empty(), toks) == p2pool_fold(
                    img@,
                    api@,
                    last@,
                    toks.skip(i as int),
                ),
            decreases n - i,
        {
            let tok = tokens[i].clone();
            assert(tok@ == toks[i as int]);
            let ghost pre_img = img@;
            let ghost pre_api = api@;
            let ghost pre_last = last@;
            proof {
                assert(toks.skip(i as int)[0] == toks[i as int]);
                assert(toks.skip(i as int).skip(1) =~= toks.skip(i as int + 1));
                assert(last@.subrange(0, last@.len() as int) =~= last@);
            }
            if range_eq(&last, 0, last.len(), &flag_mini) {
                img.mini = true;
            } else if range_eq(&last, 0, last.len(), &flag_wallet) {
                img.address = tok.clone();
            } else if range_eq(&last, 0, last.len(), &flag_host) {
                img.host = tok.clone();
            } else if range_eq(&last, 0, last.len(), &flag_rpc) {
                img.rpc = tok.clone();
            } else if range_eq(&last, 0, last.len(), &flag_zmq) {
                img.zmq = tok.clone();
            } else if range_eq(&last, 0, last.len(), &flag_log) {
                img.log_level = tok.clone();
            } else if range_eq(&last, 0, last.len(), &flag_out) {
                img.out_peers = tok.clone();
            } else if range_eq(&last, 0, last.len(), &flag_in) {
                img.in_peers = tok.clone();
            } else if range_eq(&last, 0, last.len(), &flag_api) {
                api = tok.clone();
            }
            let ghost pre = args.deep_view();
            args.push(tok.clone());
            assert(args.deep_view() =~~= pre + seq![toks[i as int]]);
            assert(args.deep_view() =~= toks.take(i as int + 1));
            last = tok;
            proof {
                let stepped = p2pool_step(pre_img, pre_api, pre_last, toks[i as int]);
                assert(stepped.0 == img@ && stepped.1 == api@);
                assert(p2pool_fold(pre_img, pre_api, pre_last, toks.skip(i as int))
                    == p2pool_fold(stepped.0, stepped.1, toks[i as int], toks.skip(i as int + 1)));
            }
            i = i + 1;
        }
        proof {
            assert(toks.skip(n as int) =~= Seq::<Seq<u8>>::empty());
            assert(args.deep_view() =~= toks);
        }
        let path = make_stats_path(&api);
        (args, path)
    } else {
        push_tok(&mut args, "--wallet");
        push_val(&mut args, &state.address);
        push_tok(&mut args, "--host");
        push_val(&mut args, &state.selected_ip);
        push_tok(&mut args, "--rpc-port");
        push_val(&mut args, &state.selected_rpc);
        push_tok(&mut args, "--zmq-port");
        push_val(&mut args, &state.selected_zmq);
        push_tok(&mut args, "--loglevel");
        push_val(&mut args, &state.log_level);
        push_tok(&mut args, "--out-peers");
        push_val(&mut args, &state.out_peers);
        push_tok(&mut args, "--in-peers");
        push_val(&mut args, &state.in_peers);
        push_tok(&mut args, "--data-api");
        push_val(&mut args, api_dir);
        push_tok(&mut args, "--local-api");
        push_tok(&mut args, "--no-color");
        if state.mini {
            push_tok(&mut args, "--mini");
        }
        img.mini = state.mini;
        img.address = state.address.clone();
        img.host = state.selected_ip.clone();
        img.rpc = state.selected_rpc.clone();
        img.zmq = state.selected_zmq.clone();
        img.log_level = state.log_level.clone();
        img.out_peers = state.out_peers.clone();
        img.in_peers = state.in_peers.clone();
        assert(args.deep_view() =~~= p2pool_built_args(*state, api_dir@));
        assert(img.address@ == state.address@);
        assert(img.host@ == state.selected_ip@);
        assert(img.rpc@ == state.selected_rpc@);
        assert(img.zmq@ == state.selected_zmq@);
        assert(img.log_level@ == state.log_level@);
        assert(img.out_peers@ == state.out_peers@);
        assert(img.in_peers@ == state.in_peers@);
        (args, make_stats_path(api_dir))
    }
}

/// The miner's configuration snapshot.
pub struct XmrigConfig {
    /// Simple mode: mine the local pool with a rig name.
    pub simple: bool,
    /// Advanced mode: a free-form argument string overriding everything,
    /// empty to build from the fields below.
    pub arguments: Vec<u8>,
    pub address: Vec<u8>,
    pub simple_rig: Vec<u8>,
    pub current_threads: Vec<u8>,
    pub pause: Vec<u8>,
    /// Simple pause: zero disables the pause-on-active flag.
    pub pause_enabled: bool,
    pub selected_ip: Vec<u8>,
    pub selected_port: Vec<u8>,
    pub selected_rig: Vec<u8>,
    pub api_ip: Vec<u8>,
    pub api_port: Vec<u8>,
    pub tls: bool,
    pub keepalive: bool,
}

/// One step of the advanced-mode walk for the miner: the token after a
/// recognized flag updates the image or the HTTP API endpoint.
pub open spec fn xmrig_step(
    img: ImgXmrigView,
    ip: Seq<u8>,
    port: Seq<u8>,
    last: Seq<u8>,
    tok: Seq<u8>,
) -> (ImgXmrigView, Seq<u8>, Seq<u8>) {
    if last == ascii("--threads"@) {
        (ImgXmrigView { threads: tok, ..img }, ip, port)
    } else if last == ascii("--url"@) {
        (ImgXmrigView { url: tok, ..img }, ip, port)
    } else if last == ascii("--http-host"@) {
        (img, tok, port)
    } else if last == ascii("--http-port"@) {
        (img, ip, tok)
    } else {
        (img, ip, port)
    }
}

/// Walk the miner's token list.
pub open spec fn xmrig_fold(
    img: ImgXmrigView,
    ip: Seq<u8>,
    port: Seq<u8>,
    last: Seq<u8>,
    toks: Seq<Seq<u8>>,
) -> (ImgXmrigView, Seq<u8>, Seq<u8>)
    decreases toks.len(),
{
    if toks.len() == 0 {
        (img, ip, port)
    } else {
        let stepped = xmrig_step(img, ip, port, last, toks[0]);
        xmrig_fold(stepped.0, stepped.1, stepped.2, toks[0], toks.skip(1))
    }
}

/// On a platform that launches through the privilege helper, the
/// binary's path is itself an argument after an emptied prompt flag.
pub open spec fn unix_prefix(path: Seq<u8>) -> Seq<Seq<u8>> {
    seq![ascii("--prompt="@), ascii("--"@), path]
}

/// `ip:port`.
pub open spec fn ip_port(ip: Seq<u8>, port: Seq<u8>) -> Seq<u8> {
    ip + seq![(58 as u8)] + port
}

/// The simple-mode argument list: the local pool, the chosen threads
/// and rig name, and the local HTTP API.
pub open spec fn xmrig_simple_args(state: XmrigConfig, rig: Seq<u8>) -> Seq<Seq<u8>> {
    seq![
        ascii("--url"@),
        ascii("127.0.0.1:3333"@),
        ascii("--threads"@),
        state.current_threads@,
        ascii("--user"@),
        rig,
        ascii("--no-color"@),
        ascii("--http-host"@),
        ascii("127.0.0.1"@),
        ascii("--http-port"@),
        ascii("18088"@),
    ] + if state.pause_enabled {
        seq![ascii("--pause-on-active"@), state.pause@]
    } else {
        Seq::<Seq<u8>>::empty()
    }
}

/// The advanced-mode argument list built from the fields.
pub open spec fn xmrig_built_args(state: XmrigConfig) -> Seq<Seq<u8>> {
    seq![
        ascii("--user"@),
        state.address@,
        ascii("--threads"@),
        state.current_threads@,
        ascii("--rig-id"@),
        state.selected_rig@,
        ascii("--url"@),
        ip_port(state.selected_ip@, state.selected_port@),
        ascii("--http-host"@),
        resolved_api_ip(state),
        ascii("--http-port"@),
        resolved_api_port(state),
        ascii("--no-color"@),
    ] + (if state.tls {
        seq![ascii("--tls"@)]
    } else {
        Seq::<Seq<u8>>::empty()
    }) + (if state.keepalive {
        seq![ascii("--keepalive"@)]
    } else {
        Seq::<Seq<u8>>::empty()
    }) + (if state.pause_enabled {
        seq![ascii("--pause-on-active"@), state.pause@]
    } else {
        Seq::<Seq<u8>>::empty()
    })
}

/// The HTTP API address the built arguments use: the configured one,
/// with the local host standing in for an empty or "localhost" entry.
pub open spec fn resolved_api_ip(state: XmrigConfig) -> Seq<u8> {
    if state.api_ip@ == ascii("localhost"@) || state.api_ip@.len() == 0 {
        ascii("127.0.0.1"@)
    } else {
        state.api_ip@
    }
}

/// The HTTP API port the built arguments use; empty means the default.
pub open spec fn resolved_api_port(state: XmrigConfig) -> Seq<u8> {
    if state.api_port@.len() == 0 {
        ascii("18088"@)
    } else {
        state.api_port@
    }
}

/// Build the miner's launch arguments and set its image. The second
/// result is the `ip:port` of the miner's HTTP API. On the privileged
/// platform (`unix`) the list opens with the prompt prefix and the
/// binary's path, the real executable being the privilege helper.
#[verifier::rlimit(100)]
pub fn build_xmrig_args_and_mutate_img(
    state: &XmrigConfig,
    path: &Vec<u8>,
    unix: bool,
    default_rig: &Vec<u8>,
    img: &mut ImgXmrig,
) -> (r: (Vec<Vec<u8>>, Vec<u8>))
    ensures
        ({
            let prefix = if unix {
                unix_prefix(path@)
            } else {
                Seq::<Seq<u8>>::empty()
            };
            let rig = if state.simple_rig@.len() == 0 {
                default_rig@
            } else {
                state.simple_rig@
            };
            &&& state.simple ==> {
                &&& r.0.deep_view() == prefix + xmrig_simple_args(*state, rig)
                &&& r.1@ == ascii("127.0.0.1:18088"@)
                &&& final(img)@ == (ImgXmrigView {
                    threads: state.current_threads@,
                    url: ascii("127.0.0.1:3333 (Local P2Pool)"@),
                })
            }
            &&& !state.simple && state.arguments@.len() > 0 ==> {
                let folded = xmrig_fold(
                    old(img)@,
                    Seq::<u8>::empty(),
                    Seq::<u8>::empty(),
                    Seq::<u8>::empty(),
                    split_ws_spec(state.arguments@, 0),
                );
                &&& r.0.deep_view() == prefix + split_ws_spec(state.arguments@, 0)
                &&& final(img)@ == folded.0
                &&& r.1@ == ip_port(folded.1, folded.2)
            }
            &&& !state.simple && state.arguments@.len() == 0 ==> {
                &&& r.0.deep_view() == prefix + xmrig_built_args(*state)
                &&& r.1@ == ip_port(resolved_api_ip(*state), resolved_api_port(*state))
                &&& final(img)@ == (ImgXmrigView {
                    threads: state.current_threads@,
                    url: ip_port(state.selected_ip@, state.selected_port@),
                })
            }
        }),
{
    proof {
        reveal_strlit("--prompt=");
        reveal_strlit("--");
        reveal_strlit("--url");
        reveal_strlit("127.0.0.1:3333");
        reveal_strlit("--threads");
        reveal_strlit("--user");
        reveal_strlit("--no-color");
        reveal_strlit("--http-host");
        reveal_strlit("127.0.0.1");
        reveal_strlit("--http-port");
        reveal_strlit("18088");
        reveal_strlit("--pause-on-active");
        reveal_strlit("--rig-id");
        reveal_strlit("--tls");
        reveal_strlit("--keepalive");
        reveal_strlit("localhost");
        reveal_strlit("127.0.0.1:3333 (Local P2Pool)");
        reveal_strlit("127.0.0.1:18088");
    }
    let mut args: Vec<Vec<u8>> = Vec::new();
    if unix {
        push_tok(&mut args, "--prompt=");
        push_tok(&mut args, "--");
        push_val(&mut args, path);
    }
    let ghost prefix = args.deep_view();
    if state.simple {
        push_tok(&mut args, "--url");
        push_tok(&mut args, "127.0.0.1:3333");
        push_tok(&mut args, "--threads");
        push_val(&mut args, &state.current_threads);
        push_tok(&mut args, "--user");
        if state.simple_rig.len() == 0 {
            push_val(&mut args, default_rig);
        } else {
            push_val(&mut args, &state.simple_rig);
        }
        push_tok(&mut args, "--no-color");
        push_tok(&mut args, "--http-host");
        push_tok(&mut args, "127.0.0.1");
        push_tok(&mut args, "--http-port");
        push_tok(&mut args, "18088");
        if state.pause_enabled {
            push_tok(&mut args, "--pause-on-active");
            push_val(&mut args, &state.pause);
        }
        img.threads = state.current_threads.clone();
        img.url = lit("127.0.0.1:3333 (Local P2Pool)");
        assert(img.threads@ == state.current_threads@);
        let api = lit("127.0.0.1:18088");
        proof {
            let rig = if state.simple_rig@.len() == 0 {
                default_rig@
            } else {
                state.simple_rig@
            };
            assert(args.deep_view() =~~= prefix + xmrig_simple_args(*state, rig));
        }
        (args, api)
    } else if state.arguments.len() > 0 {
        let tokens = split_whitespace(&state.arguments);
        let flag_threads = lit("--threads");
        let flag_url = lit("--url");
        let flag_host = lit("--http-host");
        let flag_port = lit("--http-port");
        let mut ip: Vec<u8> = Vec::new();
        let mut port: Vec<u8> = Vec::new();
        let mut last: Vec<u8> = Vec::new();
        let ghost toks = tokens.deep_view();
        let ghost img0 = img@;
        let n = tokens.len();
        let mut i: usize = 0;
        proof {
            assert(toks.skip(0) =~= toks);
        }
        while i < n
            invariant
                i <= n,
                n == toks.len(),
                toks == tokens.deep_view(),
                flag_threads@ == ascii("--threads"@),
                flag_url@ == ascii("--url"@),
                flag_host@ == ascii("--http-host"@),
                flag_port@ == ascii("--http-port"@),
                prefix == args.deep_view().take(prefix.len() as int),
                args.deep_view() == prefix + toks.take(i as int),
                xmrig_fold(img0, Seq::<u8>::empty(), Seq::<u8>::empty(), Seq::<u8>::empty(), toks)
                    == xmrig_fold(img@, ip@, port@, last@, toks.skip(i as int)),
            decreases n - i,
        {
            let tok = tokens[i].clone();
            assert(tok@ == toks[i as int]);
            let ghost pre_img = img@;
            let ghost pre_ip = ip@;
            let ghost pre_port = port@;
            let ghost pre_last = last@;
            proof {
                assert(toks.skip(i as int)[0] == toks[i as int]);
                assert(toks.skip(i as int).skip(1) =~= toks.skip(i as int + 1));
                assert(last@.subrange(0, last@.len() as int) =~= last@);
            }
            if range_eq(&last, 0, last.len(), &flag_threads) {
                img.threads = tok.clone();
            } else if range_eq(&last, 0, last.len(), &flag_url) {
                img.url = tok.clone();
            } else if range_eq(&last, 0, last.len(), &flag_host) {
                ip = tok.clone();
            } else if range_eq(&last, 0, last.len(), &flag_port) {
                port = tok.clone();
            }
            let ghost pre = args.deep_view();
            args.push(tok.clone());
            assert(args.deep_view() =~~= pre + seq![toks[i as int]]);
            assert(args.deep_view() =~= prefix + toks.take(i as int + 1));
            last = tok;
            proof {
                let stepped = xmrig_step(pre_img, pre_ip, pre_port, pre_last, toks[i as int]);
                assert(stepped.0 == img@ && stepped.1 == ip@ && stepped.2 == port@);
                assert(xmrig_fold(pre_img, pre_ip, pre_port, pre_last, toks.skip(i as int))
                    == xmrig_fold(
                    stepped.0,
                    stepped.1,
                    stepped.2,
                    toks[i as int],
                    toks.skip(i as int + 1),
                ));
            }
            i = i + 1;
        }
        proof {
            assert(toks.skip(n as int) =~= Seq::<Seq<u8>>::empty());
            assert(args.deep_view() =~= prefix + toks);
        }
        let mut api = ip;
        api.push(58);
        let mut p = port;
        api.append(&mut p);
        (args, api)
    } else {
        push_tok(&mut args, "--user");
        push_val(&mut args, &state.address);
        push_tok(&mut args, "--threads");
        push_val(&mut args, &state.current_threads);
        push_tok(&mut args, "--rig-id");
        push_val(&mut args, &state.selected_rig);
        push_tok(&mut args, "--url");
        let mut url = state.selected_ip.clone();
        assert(url@ == state.selected_ip@);
        url.push(58);
        let mut sp = state.selected_port.clone();
        assert(sp@ == state.selected_port@);
        url.append(&mut sp);
        assert(url@ =~= ip_port(state.selected_ip@, state.selected_port@));
        push_val(&mut args, &url);
        push_tok(&mut args, "--http-host");
        let loc = lit("localhost");
        let use_default_ip = state.api_ip.len() == 0 || range_eq(
            &state.api_ip,
            0,
            state.api_ip.len(),
            &loc,
        );
        proof {
            assert(state.api_ip@.subrange(0, state.api_ip@.len() as int) =~= state.api_ip@);
        }
        let rip = if use_default_ip {
            lit("127.0.0.1")
        } else {
            state.api_ip.clone()
        };
        assert(rip@ == resolved_api_ip(*state));
        push_val(&mut args, &rip);
        push_tok(&mut args, "--http-port");
        let rport = if state.api_port.len() == 0 {
            lit("18088")
        } else {
            state.api_port.clone()
        };
        assert(rport@ == resolved_api_port(*state));
        push_val(&mut args, &rport);
        push_tok(&mut args, "--no-color");
        if state.tls {
            push_tok(&mut args, "--tls");
        }
        if state.keepalive {
            push_tok(&mut args, "--keepalive");
        }
        if state.pause_enabled {
            push_tok(&mut args, "--pause-on-active");
            push_val(&mut args, &state.pause);
        }
        img.threads = state.current_threads.clone();
        img.url = url;
        assert(img.threads@ == state.current_threads@);
        let mut api = rip;
        api.push(58);
        let mut rp = rport;
        api.append(&mut rp);
        assert(api@ =~= ip_port(resolved_api_ip(*state), resolved_api_port(*state)));
        assert(args.deep_view() =~~= prefix + xmrig_built_args(*state));
        (args, api)
    }
}

} // verus!
