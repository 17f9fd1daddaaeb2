//! Launch-argument building for both children.

use gupax::args::{
    build_p2pool_args_and_mutate_img, build_xmrig_args_and_mutate_img, split_whitespace,
    ImgP2pool, ImgXmrig, P2poolConfig, XmrigConfig,
};
use gupax::process::Process;

fn b(s: &str) -> Vec<u8> {
    s.as_bytes().to_vec()
}

fn strings(args: &[Vec<u8>]) -> Vec<String> {
    args.iter().map(|a| String::from_utf8(a.clone()).unwrap()).collect()
}

fn p2pool_config() -> P2poolConfig {
    P2poolConfig {
        simple: true,
        arguments: Vec::new(),
        address: b("4ABC"),
        node_ip: b("node.example.com"),
        node_rpc: b("18081"),
        node_zmq: b("18083"),
        selected_ip: b("10.0.0.2"),
        selected_rpc: b("18089"),
        selected_zmq: b("18084"),
        log_level: b("3"),
        out_peers: b("10"),
        in_peers: b("10"),
        mini: false,
    }
}

#[test]
fn parse_args_splits_on_whitespace() {
    let toks = Process::parse_args(&b("--mini  --wallet 4ABC\n--host x"));
    assert_eq!(
        strings(&toks),
        vec!["--mini", "--wallet", "4ABC", "--host", "x"]
    );
    assert!(split_whitespace(&b("   \n\t ")).is_empty());
}

#[test]
fn p2pool_simple_arguments() {
    let state = p2pool_config();
    let mut img = ImgP2pool::new();
    let (args, api_path) = build_p2pool_args_and_mutate_img(&state, &b("/data/p2pool"), &mut img);
    assert_eq!(
        strings(&args),
        vec![
            "--wallet",
            "4ABC",
            "--host",
            "node.example.com",
            "--rpc-port",
            "18081",
            "--zmq-port",
            "18083",
            "--data-api",
            "/data/p2pool",
            "--local-api",
            "--no-color",
            "--mini",
        ]
    );
    assert_eq!(String::from_utf8(api_path).unwrap(), "/data/p2pool/local/stats");
    assert!(img.mini);
    assert_eq!(img.address, b("4ABC"));
    assert_eq!(img.host, b("node.example.com"));
    assert_eq!(img.log_level, b("3"));
}

#[test]
fn p2pool_advanced_tokens_fill_the_image() {
    let mut state = p2pool_config();
    state.simple = false;
    state.arguments = b("--wallet 4XYZ --mini --rpc-port 19081 --data-api /elsewhere");
    let mut img = ImgP2pool::new();
    img.mini = false;
    let (args, api_path) = build_p2pool_args_and_mutate_img(&state, &b("/data/p2pool"), &mut img);
    assert_eq!(
        strings(&args),
        vec!["--wallet", "4XYZ", "--mini", "--rpc-port", "19081", "--data-api", "/elsewhere"]
    );
    // each value lands under the flag before it; the flag after a value
    // marks the mini sidechain
    assert_eq!(img.address, b("4XYZ"));
    assert!(img.mini);
    assert_eq!(img.rpc, b("19081"));
    assert_eq!(String::from_utf8(api_path).unwrap(), "/elsewhere/local/stats");
}

#[test]
fn p2pool_built_arguments() {
    let mut state = p2pool_config();
    state.simple = false;
    state.mini = true;
    let mut img = ImgP2pool::new();
    let (args, api_path) = build_p2pool_args_and_mutate_img(&state, &b("/d"), &mut img);
    assert_eq!(
        strings(&args),
        vec![
            "--wallet",
            "4ABC",
            "--host",
            "10.0.0.2",
            "--rpc-port",
            "18089",
            "--zmq-port",
            "18084",
            "--loglevel",
            "3",
            "--out-peers",
            "10",
            "--in-peers",
            "10",
            "--data-api",
            "/d",
            "--local-api",
            "--no-color",
            "--mini",
        ]
    );
    assert_eq!(String::from_utf8(api_path).unwrap(), "/d/local/stats");
    assert_eq!(img.host, b("10.0.0.2"));
}

fn xmrig_config() -> XmrigConfig {
    XmrigConfig {
        simple: true,
        arguments: Vec::new(),
        address: b("4ABC"),
        simple_rig: Vec::new(),
        current_threads: b("8"),
        pause: b("95"),
        pause_enabled: true,
        selected_ip: b("pool.example.com"),
        selected_port: b("3333"),
        selected_rig: b("myrig"),
        api_ip: b("localhost"),
        api_port: Vec::new(),
        tls: false,
        keepalive: true,
    }
}

#[test]
fn xmrig_simple_arguments() {
    let state = xmrig_config();
    let mut img = ImgXmrig::new();
    let (args, api) = build_xmrig_args_and_mutate_img(
        &state,
        &b("/opt/xmrig/xmrig"),
        true,
        &b("DefaultRig"),
        &mut img,
    );
    assert_eq!(
        strings(&args),
        vec![
            "--prompt=",
            "--",
            "/opt/xmrig/xmrig",
            "--url",
            "127.0.0.1:3333",
            "--threads",
            "8",
            "--user",
            "DefaultRig",
            "--no-color",
            "--http-host",
            "127.0.0.1",
            "--http-port",
            "18088",
            "--pause-on-active",
            "95",
        ]
    );
    assert_eq!(String::from_utf8(api).unwrap(), "127.0.0.1:18088");
    assert_eq!(img.threads, b("8"));
    assert_eq!(img.url, b("127.0.0.1:3333 (Local P2Pool)"));
}

#[test]
fn xmrig_advanced_tokens_fill_the_image() {
    let mut state = xmrig_config();
    state.simple = false;
    state.arguments = b("--threads 4 --url pool:443 --http-host 10.1.1.1 --http-port 9999");
    let mut img = ImgXmrig::new();
    let (args, api) =
        build_xmrig_args_and_mutate_img(&state, &b("/x"), false, &b("DefaultRig"), &mut img);
    assert_eq!(
        strings(&args),
        vec![
            "--threads",
            "4",
            "--url",
            "pool:443",
            "--http-host",
            "10.1.1.1",
            "--http-port",
            "9999",
        ]
    );
    assert_eq!(img.threads, b("4"));
    assert_eq!(img.url, b("pool:443"));
    assert_eq!(String::from_utf8(api).unwrap(), "10.1.1.1:9999");
}

#[test]
fn xmrig_built_arguments() {
    let mut state = xmrig_config();
    state.simple = false;
    state.pause_enabled = false;
    let mut img = ImgXmrig::new();
    let (args, api) =
        build_xmrig_args_and_mutate_img(&state, &b("/x"), false, &b("DefaultRig"), &mut img);
    assert_eq!(
        strings(&args),
        vec![
            "--user",
            "4ABC",
            "--threads",
            "8",
            "--rig-id",
            "myrig",
            "--url",
            "pool.example.com:3333",
            "--http-host",
            "127.0.0.1",
            "--http-port",
            "18088",
            "--no-color",
            "--keepalive",
        ]
    );
    // "localhost" and an empty port resolve to the local defaults
    assert_eq!(String::from_utf8(api).unwrap(), "127.0.0.1:18088");
    assert_eq!(img.url, b("pool.example.com:3333"));
}
