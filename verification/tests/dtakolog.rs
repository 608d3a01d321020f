use scraper_service::bridge::{read_rendezvous, AsyncBridge, BridgeStatus};
use scraper_service::dtakolog::scraper::{
    fetch_plan, parse_payload, raw_data_path, raw_data_path_for, service_check_plan, session_id,
    vehicle_from_fields, vehicle_from_members,
};
use scraper_service::dtakolog::{
    DtakologConfig, DtakologScraper, GrpcResponse, VehicleData, VideoNotificationResult,
};
use scraper_service::json::JsonMember;
use scraper_service::poll::poll_until;
use scraper_service::session::SessionController;
use scraper_service::surface::{Operation, Outcome, Probe, Script, Step};
use scraper_service::ScraperError;

const PAYLOAD: &str = r#"[
    {"VehicleCD": "001", "VehicleName": "Truck A", "Status": "running", "Driver": "Sato", "Speed": 42},
    {"VehicleCD": "002", "VehicleName": "Truck B", "Status": "stopped"},
    {"VehicleCD": "003", "VehicleName": "Truck C", "Status": "idle", "Position": {"lat": 35, "lon": 139}}
]"#;

fn scraper() -> DtakologScraper {
    DtakologScraper::new(DtakologConfig::default())
}

fn fetched() -> BridgeStatus {
    BridgeStatus::Resolved(vec![PAYLOAD.to_string()])
}

fn pair(key: &str, value: &str) -> (String, String) {
    (key.to_string(), value.to_string())
}

#[test]
fn vehicles_are_read_out_of_the_records_that_are_objects() {
    let raw = vec![
        r#"{"Driver":"Sato","Speed":42,"Status":"running","VehicleCD":"001","VehicleName":"Truck A"}"#
            .to_string(),
        "5".to_string(),
        r#"{"Extra":{"a":[1,2]},"VehicleCD":12}"#.to_string(),
        "not json".to_string(),
        "[]".to_string(),
    ];
    let vehicles = scraper().parse_vehicle_data(&raw);
    assert_eq!(vehicles.len(), 2);
    assert_eq!(vehicles[0].vehicle_cd, "001");
    assert_eq!(vehicles[0].vehicle_name, "Truck A");
    assert_eq!(vehicles[0].status, "running");
    assert_eq!(vehicles[0].metadata, vec![pair("Driver", "\"Sato\""), pair("Speed", "42")]);
    assert_eq!(vehicles[1].vehicle_cd, "");
    assert_eq!(vehicles[1].vehicle_name, "");
    assert_eq!(vehicles[1].status, "");
    assert_eq!(vehicles[1].metadata, vec![pair("Extra", r#"{"a":[1,2]}"#)]);
    assert!(scraper().parse_vehicle_data(&vec![]).is_empty());
}

#[test]
fn a_vehicle_from_the_members_of_its_record() {
    let member = |key: &str, value: &str| JsonMember { key: key.to_string(), value: value.to_string() };
    let vehicle: VehicleData = vehicle_from_members(&vec![
        member("Status", "null"),
        member("VehicleName", "\"Bus \\\"7\\\"\""),
        member("Weight", "1.5"),
        member("VehicleCD", "\"9\""),
        member("VehicleCD", "\"10\""),
    ]);
    assert_eq!(vehicle.vehicle_cd, "9");
    assert_eq!(vehicle.vehicle_name, "Bus \"7\"");
    assert_eq!(vehicle.status, "");
    assert_eq!(vehicle.metadata, vec![pair("Weight", "1.5")]);
}

#[test]
fn no_key_occurs_twice_in_the_metadata() {
    let member = |key: &str, value: &str| JsonMember { key: key.to_string(), value: value.to_string() };
    let vehicle = vehicle_from_members(&vec![
        member("a", "1"),
        member("b", "2"),
        member("Status", "\"on\""),
        member("a", "3"),
        member("c", "4"),
        member("b", "5"),
        member("a", "6"),
    ]);
    assert_eq!(vehicle.status, "on");
    assert_eq!(vehicle.metadata, vec![pair("a", "6"), pair("b", "5"), pair("c", "4")]);
}

#[test]
fn a_vehicle_from_its_fields() {
    let member = |key: &str, value: &str| JsonMember { key: key.to_string(), value: value.to_string() };
    let vehicle = vehicle_from_fields(
        Some("7".to_string()),
        None,
        Some("idle".to_string()),
        &vec![member("x", "1"), member("VehicleCD", "\"7\""), member("x", "2"), member("VehicleName", "null")],
    );
    assert_eq!(vehicle.vehicle_cd, "7");
    assert_eq!(vehicle.vehicle_name, "");
    assert_eq!(vehicle.status, "idle");
    assert_eq!(vehicle.metadata, vec![pair("x", "2")]);
    let bare = vehicle_from_fields(None, None, None, &vec![]);
    assert_eq!(bare.vehicle_cd, "");
    assert_eq!(bare.status, "");
    assert!(bare.metadata.is_empty());
}

#[test]
fn the_payload_is_an_array_of_records() {
    let raw = parse_payload(" [1, {\"a\": 2}, \"x\", null, [true]] ").unwrap();
    assert_eq!(raw, vec!["1", "{\"a\":2}", "\"x\"", "null", "[true]"]);
    assert!(parse_payload("[]").unwrap().is_empty());
    for shape in ["{}", "\"[]\"", "5", "null", "true"] {
        assert!(matches!(
            parse_payload(shape),
            Err(ScraperError::Extraction(ref text)) if text == "vehicle table is not a JSON array"
        ));
    }
    let refused = serde_json::from_str::<serde_json::Value>("[1,").unwrap_err().to_string();
    assert!(matches!(
        parse_payload("[1,"),
        Err(ScraperError::Extraction(ref text)) if *text == refused
    ));
    assert!(matches!(parse_payload(""), Err(ScraperError::Extraction(_))));
}

#[test]
fn an_extraction_from_what_was_observed() {
    let scraper = scraper();
    let went_well = Outcome::Completed;
    let extracted =
        scraper.extract_vehicle_data(&Outcome::Flag(true), &went_well, fetched()).unwrap();
    assert_eq!(extracted.0.len(), 3);
    assert_eq!(extracted.1.len(), 3);
    assert_eq!(extracted.0[2].vehicle_name, "Truck C");
    assert_eq!(extracted.0[2].metadata, vec![pair("Position", r#"{"lat":35,"lon":139}"#)]);

    let missing = scraper.extract_vehicle_data(&Outcome::Flag(false), &went_well, fetched());
    assert!(matches!(
        missing,
        Err(ScraperError::Extraction(ref text)) if text == "VenusBridgeService not found after 30s"
    ));
    let missing = scraper.extract_vehicle_data(&Outcome::Completed, &went_well, fetched());
    assert!(matches!(missing, Err(ScraperError::Extraction(_))));

    let broken = Outcome::Failed {
        op: Operation::Poll { probe: Probe::ServiceBinding, attempts: 30, interval_ms: 1000 },
        message: "context lost".to_string(),
    };
    assert!(matches!(
        scraper.extract_vehicle_data(&broken, &went_well, fetched()),
        Err(ScraperError::JavaScript(ref text)) if text == "context lost"
    ));
    let broken = Outcome::Failed {
        op: Operation::Poll { probe: Probe::Grid, attempts: 30, interval_ms: 1000 },
        message: "page gone".to_string(),
    };
    assert!(matches!(
        scraper.extract_vehicle_data(&Outcome::Flag(true), &broken, fetched()),
        Err(ScraperError::JavaScript(ref text)) if text == "page gone"
    ));
}

#[test]
fn how_the_call_for_the_table_ends_decides_the_error() {
    let scraper = scraper();
    let ok = Outcome::Flag(true);
    let done = Outcome::Completed;

    let timed_out = scraper.extract_vehicle_data(&ok, &done, BridgeStatus::TimedOut).unwrap_err();
    assert!(matches!(timed_out, ScraperError::Timeout(ref text) if text == "remote call timed out"));
    assert!(timed_out.is_retryable());
    let pending = scraper.extract_vehicle_data(&ok, &done, BridgeStatus::Pending).unwrap_err();
    assert!(matches!(pending, ScraperError::Timeout(_)));
    let unknown = scraper.extract_vehicle_data(&ok, &done, BridgeStatus::Unknown).unwrap_err();
    assert!(matches!(unknown, ScraperError::Timeout(_)));

    let failed = scraper
        .extract_vehicle_data(&ok, &done, BridgeStatus::Failed("no such branch".to_string()))
        .unwrap_err();
    assert!(matches!(failed, ScraperError::JavaScript(ref text) if text == "no such branch"));
    assert!(!failed.is_retryable());

    for shape in ["{}", "5", "\"x\"", "null"] {
        let other = scraper
            .extract_vehicle_data(&ok, &done, BridgeStatus::Resolved(vec![shape.to_string()]))
            .unwrap_err();
        assert!(matches!(
            other,
            ScraperError::Extraction(ref text) if text == "vehicle table is not a JSON array"
        ));
    }
    let unreadable = scraper
        .extract_vehicle_data(&ok, &done, BridgeStatus::Resolved(vec!["{".to_string()]))
        .unwrap_err();
    assert!(matches!(unreadable, ScraperError::Extraction(_)));
    let nothing =
        scraper.extract_vehicle_data(&ok, &done, BridgeStatus::Resolved(vec![])).unwrap_err();
    assert!(matches!(nothing, ScraperError::Extraction(ref text) if text == "vehicle table is missing"));

    let more = scraper
        .extract_vehicle_data(&ok, &done, BridgeStatus::Resolved(vec!["[{}]".to_string(), "7".to_string()]))
        .unwrap();
    assert_eq!(more.1, vec!["{}"]);
    assert_eq!(more.0.len(), 1);
}

#[test]
fn the_plans_of_an_extraction() {
    let required = |op| Step { op, best_effort: false };
    assert_eq!(
        service_check_plan(),
        vec![required(Operation::Poll {
            probe: Probe::ServiceBinding,
            attempts: 30,
            interval_ms: 1000
        })]
    );
    assert_eq!(
        fetch_plan(),
        vec![
            required(Operation::AwaitDomStable),
            required(Operation::Sleep(2000)),
            required(Operation::Poll { probe: Probe::Grid, attempts: 30, interval_ms: 1000 }),
            required(Operation::Poll { probe: Probe::LoadingCleared, attempts: 30, interval_ms: 1000 }),
            required(Operation::Sleep(3000)),
        ]
    );
}

#[test]
fn the_name_of_a_session() {
    assert_eq!(session_id(1700000000), "session_1700000000");
    assert_eq!(session_id(0), "session_0");
    assert_eq!(session_id(7), "session_7");
    assert_eq!(session_id(10), "session_10");
    assert_eq!(session_id(-5), "session_-5");
    assert_eq!(session_id(i64::MAX), "session_9223372036854775807");
    assert_eq!(session_id(i64::MIN), "session_-9223372036854775808");
}

#[test]
fn the_name_of_a_kept_payload() {
    assert_eq!(raw_data_path_for("20240102_030405"), "./data/vehicles_20240102_030405.json");
    assert_eq!(raw_data_path_for(""), "./data/vehicles_.json");
    assert_eq!(raw_data_path(0), Some("./data/vehicles_19700101_090000.json".to_string()));
    assert_eq!(raw_data_path(1700000000), Some("./data/vehicles_20231115_071320.json".to_string()));
    assert_eq!(raw_data_path(-1), Some("./data/vehicles_19700101_085959.json".to_string()));
    assert_eq!(raw_data_path(i64::MAX), None);
    assert_eq!(raw_data_path(i64::MIN), None);
}

#[test]
fn how_the_browser_is_started() {
    let plan = scraper().initialize(Some("/opt/chrome"), Some("/opt/chromium"), 42, 1700000000123456789);
    assert_eq!(plan.executable, Some("/opt/chrome".to_string()));
    assert_eq!(plan.user_data_dir, Some("dtakolog-42-1700000000123456789".to_string()));
    assert!(!plan.with_head);
    assert!(plan.no_sandbox);
    assert_eq!(plan.request_timeout_secs, Some(60));
    assert_eq!(plan.window_size, None);
    assert_eq!(plan.download_dir, None);
    assert_eq!(
        plan.args,
        vec![
            "--disable-blink-features=AutomationControlled",
            "--disable-dev-shm-usage",
            "--disable-gpu",
            "--disable-web-security",
            "--allow-running-insecure-content",
        ]
    );

    let plan = scraper().initialize(None, Some("/opt/chromium"), 0, 0);
    assert_eq!(plan.executable, Some("/opt/chromium".to_string()));
    assert_eq!(plan.user_data_dir, Some("dtakolog-0-0".to_string()));

    let config = DtakologConfig { headless: false, debug: true, ..DtakologConfig::default() };
    let plan = DtakologScraper::new(config).initialize(None, None, u32::MAX, u128::MAX);
    assert_eq!(plan.executable, Some("chromium".to_string()));
    assert_eq!(
        plan.user_data_dir,
        Some("dtakolog-4294967295-340282366920938463463374607431768211455".to_string())
    );
    assert!(plan.with_head);
    assert_eq!(plan.args.len(), 7);
    assert_eq!(plan.args[5], "--enable-logging=stderr");
    assert_eq!(plan.args[6], "--v=1");
}

fn response() -> GrpcResponse {
    GrpcResponse { success: true, records_added: 3, total_records: 10, message: "ok".to_string() }
}

fn video(url: &str) -> VideoNotificationResult {
    VideoNotificationResult {
        vehicle_cd: 1,
        vehicle_name: "Truck A".to_string(),
        serial_no: "S1".to_string(),
        file_name: "a.vdf".to_string(),
        event_type: "brake".to_string(),
        dvr_datetime: "2024-01-02 03:04:05".to_string(),
        driver_name: "Sato".to_string(),
        mp4_url: url.to_string(),
    }
}

#[test]
fn best_effort_steps_never_fail_a_scrape() {
    let forwarding = DtakologScraper::new(DtakologConfig {
        grpc_url: Some("http://localhost:50051".to_string()),
        ..DtakologConfig::default()
    });
    let extracted =
        || forwarding.extract_vehicle_data(&Outcome::Flag(true), &Outcome::Completed, fetched());

    let result = forwarding
        .scrape("session_1".to_string(), extracted(), Some(Ok(response())), Ok(vec![video("u")]))
        .unwrap();
    assert_eq!(result.vehicles.len(), 3);
    assert_eq!(result.raw_data.len(), 3);
    assert_eq!(result.session_id, "session_1");
    assert_eq!(result.grpc_response.as_ref().map(|r| r.records_added), Some(3));
    assert_eq!(result.video_notifications.len(), 1);
    assert_eq!(result.video_notifications[0].mp4_url, "u");

    let result = forwarding
        .scrape(
            "session_1".to_string(),
            extracted(),
            Some(Err(ScraperError::Grpc("down".to_string()))),
            Err(ScraperError::JavaScript("lost".to_string())),
        )
        .unwrap();
    assert_eq!(result.vehicles.len(), 3);
    assert!(result.grpc_response.is_none());
    assert!(result.video_notifications.is_empty());

    let result = forwarding.scrape("session_1".to_string(), extracted(), None, Ok(vec![])).unwrap();
    assert!(result.grpc_response.is_none());

    let silent = scraper();
    let result = silent
        .scrape("session_1".to_string(), extracted(), Some(Ok(response())), Ok(vec![]))
        .unwrap();
    assert!(result.grpc_response.is_none());
}

#[test]
fn a_failed_extraction_fails_the_scrape() {
    let failed = scraper().scrape(
        "session_1".to_string(),
        Err(ScraperError::Extraction("gone".to_string())),
        Some(Ok(response())),
        Ok(vec![video("u")]),
    );
    assert!(matches!(failed, Err(ScraperError::Extraction(ref text)) if text == "gone"));
}

#[test]
fn a_scrape_from_login_to_result() {
    // The marker of a finished login appears with the second poll.
    let marker = poll_until(&vec![false, true], 5);
    assert_eq!(marker, Some(1));
    let outcomes = vec![
        Outcome::Flag(true),
        Outcome::Completed,
        Outcome::Flag(marker.is_some()),
        Outcome::Completed,
        Outcome::Text("https://theearth-np.com/WebVenus/F-AAV0001[VenusMain].aspx".to_string()),
        Outcome::Flag(true),
    ];
    let mut controller = SessionController::fresh(false);
    let mut performed: Vec<Step> = Vec::new();
    for outcome in &outcomes {
        assert!(!controller.is_terminal());
        performed.extend(controller.plan());
        controller = controller.advance(outcome);
    }
    assert!(controller.is_ready());
    assert_eq!(performed[0].op, Operation::Navigate(scraper_service::surface::Address::Login));
    assert!(performed.iter().any(|s| s.op == Operation::Run(Script::FillCredentials)));
    assert!(performed.iter().any(|s| s.op == Operation::Run(Script::ClickLogin)));

    let scraper = scraper();
    let session = session_id(1700000000);
    // The call for the table is answered at the second evaluation of its slot.
    let mut bridge = AsyncBridge::new();
    let answered = format!(r#"{{"completed":true,"result":[{}],"error":null}}"#, PAYLOAD);
    let seen = vec![
        read_rendezvous(r#"{"completed":false,"result":null,"error":null}"#),
        read_rendezvous(&answered),
    ];
    let status = bridge.await_call(0, 60000, 500, seen);
    let extracted = scraper.extract_vehicle_data(&Outcome::Flag(true), &Outcome::Completed, status);
    let result = scraper.scrape(session, extracted, None, Ok(vec![])).unwrap();
    assert_eq!(result.vehicles.len(), 3);
    assert!(!result.session_id.is_empty());
    assert_eq!(result.session_id, "session_1700000000");
    assert_eq!(result.vehicles[0].vehicle_cd, "001");
    assert_eq!(result.vehicles[1].vehicle_name, "Truck B");
    assert_eq!(result.vehicles[2].status, "idle");

    let sent: Vec<serde_json::Value> = serde_json::from_str(PAYLOAD).unwrap();
    let kept: Vec<serde_json::Value> =
        result.raw_data.iter().map(|text| serde_json::from_str(text).unwrap()).collect();
    assert_eq!(kept.len(), 3);
    assert_eq!(kept, sent);
    let again = serde_json::to_string(&kept).unwrap();
    assert_eq!(serde_json::from_str::<Vec<serde_json::Value>>(&again).unwrap(), sent);
}
