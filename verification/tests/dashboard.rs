use bee::dashboard::dbsize::{DBSizeWorker, DBSizes};
use bee::dashboard::static_files::{asset_path, static_asset};
use bee::dashboard::websocket::{heartbeat, HeartbeatAction, CLIENT_TIMEOUT_MILLIS};
use bee::dashboard::websocket::{reaction, ClientMessage, Reaction, DB_SIZE_METRIC, MS, TPS_METRICS, TX_VALUE, TX_ZERO_VALUE};

#[test]
fn dbsize_reports_elapsed_time() {
    let mut worker = DBSizeWorker::new();
    let first = worker.dbsize(1_000);
    assert_eq!(first, DBSizes { tangle: 0, snapshot: 0, spent: 0, timestamp_in_millis: 1_000 });
    let second = worker.dbsize(61_000);
    assert_eq!(second, DBSizes { tangle: 0, snapshot: 0, spent: 0, timestamp_in_millis: 60_000 });
}

#[test]
fn asset_path_strips_leading_slash() {
    assert_eq!(asset_path("/index.html"), "index.html");
    assert_eq!(asset_path("/"), "");
}

#[test]
fn asset_path_removes_app_prefix() {
    assert_eq!(asset_path("/app/main.js"), "main.js");
    assert_eq!(asset_path("/app/app/x"), "x");
    assert_eq!(asset_path("/static/app/y.css"), "static/y.css");
    assert_eq!(asset_path("/apps/z"), "apps/z");
    assert_eq!(asset_path("/aapp/q"), "aq");
}

#[test]
fn websocket_reactions() {
    assert_eq!(reaction(ClientMessage::Ping), Reaction::HeartbeatAndPong);
    assert_eq!(reaction(ClientMessage::Pong), Reaction::Heartbeat);
    assert_eq!(reaction(ClientMessage::Text), Reaction::EchoText);
    assert_eq!(reaction(ClientMessage::Binary), Reaction::EchoBinary);
    assert_eq!(reaction(ClientMessage::Close), Reaction::CloseAndStop);
    assert_eq!(reaction(ClientMessage::Other), Reaction::Stop);
}

#[test]
fn message_types() {
    assert_eq!(TPS_METRICS, 2);
    assert_eq!(MS, 5);
    assert_eq!(DB_SIZE_METRIC, 13);
    assert_eq!(TX_VALUE, TX_ZERO_VALUE);
}

#[test]
fn static_asset_names_and_types() {
    assert_eq!(static_asset("/app/main.js"), (String::from("main.js"), String::from("text/javascript")));
    assert_eq!(static_asset("/index.html"), (String::from("index.html"), String::from("text/html")));
    assert_eq!(static_asset("/app/style.css").1, "text/css");
    assert_eq!(static_asset("/blob").1, "application/octet-stream");
    assert_eq!(static_asset("/").1, "application/octet-stream");
}

#[test]
fn heartbeat_drops_silent_clients() {
    assert_eq!(heartbeat(0), HeartbeatAction::Ping);
    assert_eq!(heartbeat(CLIENT_TIMEOUT_MILLIS), HeartbeatAction::Ping);
    assert_eq!(heartbeat(CLIENT_TIMEOUT_MILLIS + 1), HeartbeatAction::Stop);
    assert_eq!(heartbeat(u64::MAX), HeartbeatAction::Stop);
}

#[test]
fn db_size_metric_payload() {
    use_db_size_metric();
}

fn use_db_size_metric() {
    let metric = bee::dashboard::dbsize::db_size_metric(1_234_567);
    assert_eq!(metric.tangle, 100000000);
    assert_eq!(metric.snapshot, 200000000);
    assert_eq!(metric.spent, 300000000);
    assert_eq!(metric.ts, 1234);
    assert_eq!(bee::dashboard::dbsize::db_size_metric(-1_500).ts, -1);
    assert_eq!(bee::dashboard::dbsize::db_size_metric(999).ts, 0);
}

#[test]
fn static_answer_serves_or_falls_back() {
    match bee::dashboard::static_files::static_answer(String::from("text/html"), Some(7u8)) {
        bee::dashboard::static_files::StaticAnswer::Serve(content, ty) => {
            assert_eq!(content, 7u8);
            assert_eq!(ty, "text/html");
        }
        _ => unreachable!(),
    }
    match bee::dashboard::static_files::static_answer::<u8>(String::from("text/html"), None) {
        bee::dashboard::static_files::StaticAnswer::Fallback(path) => assert_eq!(path, "/index.html"),
        _ => unreachable!(),
    }
}
