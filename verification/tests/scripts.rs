use scraper_service::scripts::{
    address_url, dvr_call_script, element_selector, file_list_script, probe_source, query_source,
    script_source, slot_poll_script, transfer_script, vehicle_table_call_script,
};
use scraper_service::surface::{Address, Element, Probe, Query, Script};

#[test]
fn the_addresses_of_the_pages() {
    assert_eq!(address_url(Address::Login), "https://theearth-np.com/F-OES1010[Login].aspx?mode=timeout");
    assert_eq!(address_url(Address::Main), "https://theearth-np.com/WebVenus/F-AAV0001[VenusMain].aspx");
    assert_eq!(address_url(Address::StatementTop), "https://www.etc-meisai.jp/");
    assert!(scraper_service::session::check_login_url(address_url(Address::Login)));
    assert!(!scraper_service::session::check_login_url(address_url(Address::Main)));
}

#[test]
fn the_selectors_of_the_login_page() {
    assert_eq!(element_selector(Element::LoginLink), "a[href*='funccode=1013000000']");
    assert_eq!(element_selector(Element::UserIdField), "input[name='risLoginId']");
    assert_eq!(element_selector(Element::PasswordField), "input[name='risPassword']");
    assert_eq!(element_selector(Element::LoginButton), "input[type='button'][value='ログイン']");
}

#[test]
fn the_expressions_of_the_probes() {
    assert_eq!(probe_source(Probe::LoginForm), "document.querySelector('#txtPass') !== null");
    assert_eq!(probe_source(Probe::HomeButton), "document.querySelector('#Button1st_7') !== null");
    assert_eq!(probe_source(Probe::Popup), "document.querySelector('#popup_1') !== null");
    assert_eq!(probe_source(Probe::PageLoaded), "document.readyState === 'complete'");
    assert_eq!(
        probe_source(Probe::Grid),
        "document.querySelector('#igGrid-VenusMain-VehicleList') !== null"
    );
    assert!(probe_source(Probe::ServiceBinding).contains("VehicleStateTableForBranchEx"));
    assert!(probe_source(Probe::LoadingCleared).ends_with("visibleLoading.length === 0; })()"));
    assert!(probe_source(Probe::SearchButtonClicked).contains("input[name='focusTarget']"));
    assert!(probe_source(Probe::DownloadScripts).contains("goOutput"));
}

#[test]
fn the_credentials_go_into_the_form_as_they_are() {
    assert_eq!(
        script_source(Script::FillCredentials, "C1", "taro", "p'w"),
        "document.querySelector('#txtID2').value = 'C1'; \
         document.querySelector('#txtID1').value = 'taro'; \
         document.querySelector('#txtPass').value = 'p'w';"
    );
    assert_eq!(
        script_source(Script::ClickLogin, "C1", "taro", "pw"),
        "document.querySelector('#imgLogin').click()"
    );
    assert_eq!(
        script_source(Script::ClickHome, "", "", ""),
        "document.querySelector('#Button1st_7').click()"
    );
    assert_eq!(
        script_source(Script::ClickPopup, "", "", ""),
        "document.querySelector('#popup_1').click()"
    );
    assert!(script_source(Script::DismissBlockingPopup, "", "", "").contains("popup.style.display"));
    assert!(script_source(Script::OpenSearchConditions, "", "", "").contains("検索条件の指定"));
    assert!(script_source(Script::SelectAllStatements, "", "", "").contains("sokoKbn"));
    assert!(script_source(Script::SaveSearchConditions, "", "", "").contains("focusTarget_Save"));
    assert!(script_source(Script::ClickStatementLink, "", "", "").contains("明細"));
}

#[test]
fn the_queries() {
    assert_eq!(query_source(Query::Url), "window.location.href");
}

const OPEN: &str = "(() => { window.__bridge = window.__bridge || {}; const slot = { completed: false, result: null, error: null }; window.__bridge['";
const SUCCESS: &str = "function() { slot.result = Array.from(arguments); slot.completed = true; }";
const FAILURE: &str =
    "function(error) { slot.error = String(error || 'Unknown error'); slot.completed = true; }";
const END: &str = "); return 'initiated'; })()";

#[test]
fn every_call_has_a_slot_of_its_own_on_the_page() {
    assert_eq!(
        slot_poll_script(0),
        "JSON.stringify((window.__bridge || {})['0'] || { completed: false, result: null, error: null })"
    );
    assert_eq!(
        slot_poll_script(41),
        "JSON.stringify((window.__bridge || {})['41'] || { completed: false, result: null, error: null })"
    );
    assert_ne!(slot_poll_script(1), slot_poll_script(2));
    assert_ne!(dvr_call_script(3), dvr_call_script(4));
    for token in [0usize, 7, 12345] {
        let opened = format!("{}{}'] = slot; ", OPEN, token);
        assert!(dvr_call_script(token).starts_with(&opened));
        assert!(vehicle_table_call_script(token, "b", "f").starts_with(&opened));
        assert!(file_list_script(token, 1).starts_with(&opened));
        assert!(transfer_script(token, "s", "f").starts_with(&opened));
    }
}

#[test]
fn the_bridged_calls() {
    assert_eq!(
        vehicle_table_call_script(12, "00000000", "0"),
        format!(
            "{}12'] = slot; VenusBridgeService.VehicleStateTableForBranchEx('00000000', '0', {}, {}{}",
            OPEN, SUCCESS, FAILURE, END
        )
    );
    assert_eq!(
        dvr_call_script(3),
        format!(
            "{}3'] = slot; if (typeof VenusBridgeService === 'undefined' || typeof VenusBridgeService.Monitoring_DvrNotification2 !== 'function') {{ return 'not_available'; }} const sort = ',,' + '0' + ',' + '100'; VenusBridgeService.Monitoring_DvrNotification2(sort, {}{}",
            OPEN, SUCCESS, END
        )
    );
    assert_eq!(
        file_list_script(5, -42),
        format!(
            "{}5'] = slot; VenusBridgeService.Request_DvrFileList(-42, {}, {}{}",
            OPEN, SUCCESS, FAILURE, END
        )
    );
    assert_eq!(
        transfer_script(6, "S1", "a.vdf"),
        format!(
            "{}6'] = slot; VenusBridgeService.Request_DvrFileTransfer_MultiTarget('S1', 'a.vdf', {}, {}{}",
            OPEN, SUCCESS, FAILURE, END
        )
    );
}
