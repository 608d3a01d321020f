//! The addresses, selectors and scripts of the two services.
//!
//! They are data: the engine names an operation, and this module says what
//! the driver sends to the page for it. Scripts that carry a value of the
//! caller are put together here, the value between single quotes as it
//! is.

use vstd::prelude::*;

use crate::surface::{Address, Element, Probe, Query, Script};
use crate::text::{
    decimal, push_decimal, push_signed_decimal, push_text, signed_decimal,
};

verus! {

pub const LOGIN_URL: &'static str = "https://theearth-np.com/F-OES1010[Login].aspx?mode=timeout";

pub const MAIN_URL: &'static str = "https://theearth-np.com/WebVenus/F-AAV0001[VenusMain].aspx";

pub const STATEMENT_URL: &'static str = "https://www.etc-meisai.jp/";

pub const LOGIN_LINK_SELECTOR: &'static str = "a[href*='funccode=1013000000']";

pub const USER_ID_SELECTOR: &'static str = "input[name='risLoginId']";

pub const PASSWORD_SELECTOR: &'static str = "input[name='risPassword']";

pub const LOGIN_BUTTON_SELECTOR: &'static str = "input[type='button'][value='ログイン']";

pub const LOGIN_FORM_PROBE: &'static str = "document.querySelector('#txtPass') !== null";

pub const HOME_BUTTON_PROBE: &'static str = "document.querySelector('#Button1st_7') !== null";

pub const POPUP_PROBE: &'static str = "document.querySelector('#popup_1') !== null";

pub const PAGE_LOADED_PROBE: &'static str = "document.readyState === 'complete'";

pub const SERVICE_BINDING_PROBE: &'static str =
    "typeof VenusBridgeService !== 'undefined' && typeof VenusBridgeService.VehicleStateTableForBranchEx === 'function'";

pub const GRID_PROBE: &'static str =
    "document.querySelector('#igGrid-VenusMain-VehicleList') !== null";

pub const LOADING_CLEARED_PROBE: &'static str =
    "(() => { const waitMsg = document.querySelector('#pMsg_wait, [id*=\"pMsg_wait\"], [id*=\"pMsg\"], [class*=\"pMsg\"]'); const loadingDivs = document.querySelectorAll('[id*=\"loading\"], [id*=\"Loading\"], .loading-message, .wait-message'); const allLoading = waitMsg ? [waitMsg, ...loadingDivs] : [...loadingDivs]; const visibleLoading = allLoading.filter(elem => { if (!elem) return false; const style = window.getComputedStyle(elem); const rect = elem.getBoundingClientRect(); return style.display !== 'none' && style.visibility !== 'hidden' && style.opacity !== '0' && (rect.width > 0 || rect.height > 0); }); return visibleLoading.length === 0; })()";

pub const SEARCH_BUTTON_PROBE: &'static str =
    "(function() { var btn = document.querySelector(\"input[name='focusTarget']\"); if (btn) { btn.click(); return true; } return false; })()";

pub const DOWNLOAD_SCRIPTS_PROBE: &'static str =
    "(typeof goOutput === 'function' && typeof submitOpenPage === 'function')";

pub const DISMISS_BLOCKING_POPUP_SCRIPT: &'static str =
    "(() => { const popup = document.querySelector('#popup_1'); if (popup && popup.style.display !== 'none') { popup.click(); } })()";

pub const CLICK_LOGIN_SCRIPT: &'static str = "document.querySelector('#imgLogin').click()";

pub const CLICK_HOME_SCRIPT: &'static str = "document.querySelector('#Button1st_7').click()";

pub const CLICK_POPUP_SCRIPT: &'static str = "document.querySelector('#popup_1').click()";

pub const OPEN_SEARCH_CONDITIONS_SCRIPT: &'static str =
    "(function() { var links = document.querySelectorAll('a'); for (var i = 0; i < links.length; i++) { if (links[i].textContent.indexOf('検索条件の指定') >= 0) { links[i].click(); return true; } } return false; })()";

pub const SELECT_ALL_STATEMENTS_SCRIPT: &'static str =
    "(function() { var radio = document.querySelector(\"input[name='sokoKbn'][value='0']\"); if (radio) { radio.click(); return true; } return false; })()";

pub const SAVE_SEARCH_CONDITIONS_SCRIPT: &'static str =
    "(function() { var btn = document.querySelector(\"input[name='focusTarget_Save']\"); if (btn) { btn.click(); return true; } return false; })()";

pub const CLICK_STATEMENT_LINK_SCRIPT: &'static str =
    "(function() { var links = document.querySelectorAll('a'); for (var i = 0; i < links.length; i++) { var text = links[i].textContent; if (text.indexOf('明細') >= 0 && (text.indexOf('CSV') >= 0 || text.indexOf('ＣＳＶ') >= 0)) { links[i].click(); return true; } } return false; })()";

pub const FILL_ID2_HEAD: &'static str = "document.querySelector('#txtID2').value = '";

pub const FILL_ID1_HEAD: &'static str = "'; document.querySelector('#txtID1').value = '";

pub const FILL_PASS_HEAD: &'static str = "'; document.querySelector('#txtPass').value = '";

pub const FILL_TAIL: &'static str = "';";

pub const URL_QUERY: &'static str = "window.location.href";

/// What stands between two text arguments of a call.
pub const ARGUMENT_SEPARATOR: &'static str = "', '";

/// A bridged call, up to the token of its slot: the page gets an object
/// for what the callbacks of this call write, and keeps it under the token.
pub const SLOT_OPEN_HEAD: &'static str =
    "(() => { window.__bridge = window.__bridge || {}; const slot = { completed: false, result: null, error: null }; window.__bridge['";

/// A bridged call, between the token and the call itself.
pub const SLOT_OPEN_TAIL: &'static str = "'] = slot; ";

/// The callback of success: it keeps all its arguments, in order.
pub const SUCCESS_CALLBACK: &'static str =
    "function() { slot.result = Array.from(arguments); slot.completed = true; }";

/// The callback of failure: it keeps the text that it is given.
pub const FAILURE_CALLBACK: &'static str =
    "function(error) { slot.error = String(error || 'Unknown error'); slot.completed = true; }";

/// The end of a bridged call.
pub const CALL_TAIL: &'static str = "); return 'initiated'; })()";

/// The call for the vehicle table, up to the branch.
pub const VEHICLE_CALL_HEAD: &'static str = "VenusBridgeService.VehicleStateTableForBranchEx('";

/// The call for the video notifications, up to its callback.
pub const DVR_CALL_HEAD: &'static str =
    "if (typeof VenusBridgeService === 'undefined' || typeof VenusBridgeService.Monitoring_DvrNotification2 !== 'function') { return 'not_available'; } const sort = ',,' + '0' + ',' + '100'; VenusBridgeService.Monitoring_DvrNotification2(sort, ";

/// The call for the file list of a recorder, up to the vehicle's code.
pub const FILE_LIST_CALL_HEAD: &'static str = "VenusBridgeService.Request_DvrFileList(";

/// The call for the transfer of a file, up to the serial number.
pub const TRANSFER_CALL_HEAD: &'static str =
    "VenusBridgeService.Request_DvrFileTransfer_MultiTarget('";

/// What closes the text arguments of a call before its callbacks.
pub const ARGUMENTS_END: &'static str = "', ";

/// What stands between two callbacks, and between a number and a callback.
pub const CALLBACK_SEPARATOR: &'static str = ", ";

/// The evaluation of a slot, up to the token.
pub const SLOT_POLL_HEAD: &'static str = "JSON.stringify((window.__bridge || {})['";

/// The evaluation of a slot, after the token.
pub const SLOT_POLL_TAIL: &'static str =
    "'] || { completed: false, result: null, error: null })";

/// Reads the two counts of a network poll: the loads under way and the
/// page's own count of pending requests.
pub const NETWORK_SAMPLE_SCRIPT: &'static str =
    "(() => { const now = performance.now(); const recent = performance.getEntriesByType('resource').filter(e => (now - e.startTime) < 500 && e.duration === 0).length; const pending = window.__pendingRequests > 0 ? window.__pendingRequests : 0; return [recent, pending]; })()";

/// Reads the length of the serialized document.
pub const DOCUMENT_LENGTH_SCRIPT: &'static str = "document.documentElement.outerHTML.length";

/// The address of a page.
pub open spec fn url_of(address: Address) -> Seq<char> {
    match address {
        Address::Login => LOGIN_URL@,
        Address::Main => MAIN_URL@,
        Address::StatementTop => STATEMENT_URL@,
    }
}

/// The address of a page.
pub fn address_url(address: Address) -> (url: &'static str)
    ensures
        url@ == url_of(address),
{
    match address {
        Address::Login => LOGIN_URL,
        Address::Main => MAIN_URL,
        Address::StatementTop => STATEMENT_URL,
    }
}

/// The selector of an element.
pub open spec fn selector_of(element: Element) -> Seq<char> {
    match element {
        Element::LoginLink => LOGIN_LINK_SELECTOR@,
        Element::UserIdField => USER_ID_SELECTOR@,
        Element::PasswordField => PASSWORD_SELECTOR@,
        Element::LoginButton => LOGIN_BUTTON_SELECTOR@,
    }
}

/// The selector of an element.
pub fn element_selector(element: Element) -> (selector: &'static str)
    ensures
        selector@ == selector_of(element),
{
    match element {
        Element::LoginLink => LOGIN_LINK_SELECTOR,
        Element::UserIdField => USER_ID_SELECTOR,
        Element::PasswordField => PASSWORD_SELECTOR,
        Element::LoginButton => LOGIN_BUTTON_SELECTOR,
    }
}

/// The expression that answers a probe.
pub open spec fn probe_of(probe: Probe) -> Seq<char> {
    match probe {
        Probe::LoginForm => LOGIN_FORM_PROBE@,
        Probe::HomeButton => HOME_BUTTON_PROBE@,
        Probe::Popup => POPUP_PROBE@,
        Probe::PageLoaded => PAGE_LOADED_PROBE@,
        Probe::ServiceBinding => SERVICE_BINDING_PROBE@,
        Probe::Grid => GRID_PROBE@,
        Probe::LoadingCleared => LOADING_CLEARED_PROBE@,
        Probe::SearchButtonClicked => SEARCH_BUTTON_PROBE@,
        Probe::DownloadScripts => DOWNLOAD_SCRIPTS_PROBE@,
    }
}

/// The expression that answers a probe.
pub fn probe_source(probe: Probe) -> (source: &'static str)
    ensures
        source@ == probe_of(probe),
{
    match probe {
        Probe::LoginForm => LOGIN_FORM_PROBE,
        Probe::HomeButton => HOME_BUTTON_PROBE,
        Probe::Popup => POPUP_PROBE,
        Probe::PageLoaded => PAGE_LOADED_PROBE,
        Probe::ServiceBinding => SERVICE_BINDING_PROBE,
        Probe::Grid => GRID_PROBE,
        Probe::LoadingCleared => LOADING_CLEARED_PROBE,
        Probe::SearchButtonClicked => SEARCH_BUTTON_PROBE,
        Probe::DownloadScripts => DOWNLOAD_SCRIPTS_PROBE,
    }
}

/// The script that writes the three credentials into the login form.
pub open spec fn fill_credentials_of(
    comp_id: Seq<char>,
    user_name: Seq<char>,
    user_pass: Seq<char>,
) -> Seq<char> {
    FILL_ID2_HEAD@ + comp_id + FILL_ID1_HEAD@ + user_name + FILL_PASS_HEAD@ + user_pass
        + FILL_TAIL@
}

/// The text of a script.
pub open spec fn script_of(
    script: Script,
    comp_id: Seq<char>,
    user_name: Seq<char>,
    user_pass: Seq<char>,
) -> Seq<char> {
    match script {
        Script::DismissBlockingPopup => DISMISS_BLOCKING_POPUP_SCRIPT@,
        Script::FillCredentials => fill_credentials_of(comp_id, user_name, user_pass),
        Script::ClickLogin => CLICK_LOGIN_SCRIPT@,
        Script::ClickHome => CLICK_HOME_SCRIPT@,
        Script::ClickPopup => CLICK_POPUP_SCRIPT@,
        Script::OpenSearchConditions => OPEN_SEARCH_CONDITIONS_SCRIPT@,
        Script::SelectAllStatements => SELECT_ALL_STATEMENTS_SCRIPT@,
        Script::SaveSearchConditions => SAVE_SEARCH_CONDITIONS_SCRIPT@,
        Script::ClickStatementLink => CLICK_STATEMENT_LINK_SCRIPT@,
    }
}

/// The text of a script. Only the script that fills the login form reads
/// the credentials.
pub fn script_source(script: Script, comp_id: &str, user_name: &str, user_pass: &str) -> (source:
    String)
    ensures
        source@ == script_of(script, comp_id@, user_name@, user_pass@),
{
    match script {
        Script::DismissBlockingPopup => DISMISS_BLOCKING_POPUP_SCRIPT.to_string(),
        Script::FillCredentials => {
            let mut out = String::new();
            push_text(&mut out, FILL_ID2_HEAD);
            push_text(&mut out, comp_id);
            push_text(&mut out, FILL_ID1_HEAD);
            push_text(&mut out, user_name);
            push_text(&mut out, FILL_PASS_HEAD);
            push_text(&mut out, user_pass);
            push_text(&mut out, FILL_TAIL);
            out
        },
        Script::ClickLogin => CLICK_LOGIN_SCRIPT.to_string(),
        Script::ClickHome => CLICK_HOME_SCRIPT.to_string(),
        Script::ClickPopup => CLICK_POPUP_SCRIPT.to_string(),
        Script::OpenSearchConditions => OPEN_SEARCH_CONDITIONS_SCRIPT.to_string(),
        Script::SelectAllStatements => SELECT_ALL_STATEMENTS_SCRIPT.to_string(),
        Script::SaveSearchConditions => SAVE_SEARCH_CONDITIONS_SCRIPT.to_string(),
        Script::ClickStatementLink => CLICK_STATEMENT_LINK_SCRIPT.to_string(),
    }
}

/// The expression that answers a query.
pub open spec fn query_of(query: Query) -> Seq<char> {
    match query {
        Query::Url => URL_QUERY@,
    }
}

/// The expression that answers a query.
pub fn query_source(query: Query) -> (source: &'static str)
    ensures
        source@ == query_of(query),
{
    match query {
        Query::Url => URL_QUERY,
    }
}

/// The beginning of every bridged call: the slot of the call is made and
/// kept under the call's token. The callbacks write into that object, so
/// whatever another call writes, and whenever, goes elsewhere.
pub open spec fn slot_opened(token: usize) -> Seq<char> {
    SLOT_OPEN_HEAD@ + decimal(token as nat) + SLOT_OPEN_TAIL@
}

/// The two callbacks and the end of a bridged call.
pub open spec fn callbacks() -> Seq<char> {
    SUCCESS_CALLBACK@ + CALLBACK_SEPARATOR@ + FAILURE_CALLBACK@ + CALL_TAIL@
}

fn push_slot(out: &mut String, token: usize)
    ensures
        final(out)@ == old(out)@ + slot_opened(token),
{
    push_text(out, SLOT_OPEN_HEAD);
    push_decimal(out, token as u128);
    push_text(out, SLOT_OPEN_TAIL);
    assert(out@ =~= old(out)@ + slot_opened(token));
}

fn push_callbacks(out: &mut String)
    ensures
        final(out)@ == old(out)@ + callbacks(),
{
    push_text(out, SUCCESS_CALLBACK);
    push_text(out, CALLBACK_SEPARATOR);
    push_text(out, FAILURE_CALLBACK);
    push_text(out, CALL_TAIL);
    assert(out@ =~= old(out)@ + callbacks());
}

/// The script that makes the call for the vehicle table.
pub fn vehicle_table_call_script(token: usize, branch_id: &str, filter_id: &str) -> (source: String)
    ensures
        source@ == slot_opened(token) + VEHICLE_CALL_HEAD@ + branch_id@ + ARGUMENT_SEPARATOR@
            + filter_id@ + ARGUMENTS_END@ + callbacks(),
{
    let mut out = String::new();
    push_slot(&mut out, token);
    push_text(&mut out, VEHICLE_CALL_HEAD);
    push_text(&mut out, branch_id);
    push_text(&mut out, ARGUMENT_SEPARATOR);
    push_text(&mut out, filter_id);
    push_text(&mut out, ARGUMENTS_END);
    push_callbacks(&mut out);
    out
}

/// The script that makes the call for the video notifications. It answers
/// `not_available` where the page has no such call, and `initiated` where
/// the call is made. The call has one callback.
pub fn dvr_call_script(token: usize) -> (source: String)
    ensures
        source@ == slot_opened(token) + DVR_CALL_HEAD@ + SUCCESS_CALLBACK@ + CALL_TAIL@,
{
    let mut out = String::new();
    push_slot(&mut out, token);
    push_text(&mut out, DVR_CALL_HEAD);
    push_text(&mut out, SUCCESS_CALLBACK);
    push_text(&mut out, CALL_TAIL);
    out
}

/// The script that makes the call for the file list of a vehicle's
/// recorder.
pub fn file_list_script(token: usize, vehicle_cd: i64) -> (source: String)
    ensures
        source@ == slot_opened(token) + FILE_LIST_CALL_HEAD@ + signed_decimal(vehicle_cd as int)
            + CALLBACK_SEPARATOR@ + callbacks(),
{
    let mut out = String::new();
    push_slot(&mut out, token);
    push_text(&mut out, FILE_LIST_CALL_HEAD);
    push_signed_decimal(&mut out, vehicle_cd);
    push_text(&mut out, CALLBACK_SEPARATOR);
    push_callbacks(&mut out);
    out
}

/// The script that makes the call for the transfer of a recorder's file.
pub fn transfer_script(token: usize, serial_no: &str, file_name: &str) -> (source: String)
    ensures
        source@ == slot_opened(token) + TRANSFER_CALL_HEAD@ + serial_no@ + ARGUMENT_SEPARATOR@
            + file_name@ + ARGUMENTS_END@ + callbacks(),
{
    let mut out = String::new();
    push_slot(&mut out, token);
    push_text(&mut out, TRANSFER_CALL_HEAD);
    push_text(&mut out, serial_no);
    push_text(&mut out, ARGUMENT_SEPARATOR);
    push_text(&mut out, file_name);
    push_text(&mut out, ARGUMENTS_END);
    push_callbacks(&mut out);
    out
}

/// The script that evaluates the slot of the call with the given token.
pub fn slot_poll_script(token: usize) -> (source: String)
    ensures
        source@ == SLOT_POLL_HEAD@ + decimal(token as nat) + SLOT_POLL_TAIL@,
{
    let mut out = String::new();
    push_text(&mut out, SLOT_POLL_HEAD);
    push_decimal(&mut out, token as u128);
    push_text(&mut out, SLOT_POLL_TAIL);
    out
}

} // verus!
