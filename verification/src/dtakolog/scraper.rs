//! The decisions of a scrape of the vehicle service.

use vstd::prelude::*;

use super::types::{
    DtakologConfig, DtakologData, DtakologResult, GrpcResponse, VehicleData, VehicleModel,
    VideoNotificationResult,
};
use crate::error::{ErrorKind, ScraperError};
use crate::json::{
    find_member, json_opened, member_at, member_string, open_json, pairs, string_member, texts,
    JsonMember, JsonNode, JsonShape,
};
use crate::bridge::{BridgeStatus, REMOTE_CALL_TIMED_OUT};
use crate::surface::{LaunchPlan, Operation, Outcome, Probe, Step};
use crate::text::{
    chars_of, decimal, equal_chars, push_decimal, push_signed_decimal, push_text, signed_decimal,
};

verus! {

/// Key of the vehicle's code in a record of the vehicle table.
pub const KEY_VEHICLE_CD: &'static str = "VehicleCD";

/// Key of the vehicle's name.
pub const KEY_VEHICLE_NAME: &'static str = "VehicleName";

/// Key of the vehicle's status.
pub const KEY_STATUS: &'static str = "Status";

/// The scraper of the vehicle service: the settings of a scrape, and the
/// decisions that the scrape takes. The browser is the driver's.
#[derive(Debug, Clone)]
pub struct DtakologScraper {
    pub config: DtakologConfig,
}

/// The string under `key`, or the empty text if there is none.
pub open spec fn string_or_empty(members: Seq<(Seq<char>, Seq<char>)>, key: Seq<char>) -> Seq<char> {
    match member_string(members, key) {
        Some(s) => s,
        None => Seq::empty(),
    }
}

/// Whether a key names one of the three fields that a vehicle keeps on its
/// own.
pub open spec fn is_own_key(key: Seq<char>) -> bool {
    key == KEY_VEHICLE_CD@ || key == KEY_VEHICLE_NAME@ || key == KEY_STATUS@
}

/// No key occurs twice.
pub open spec fn distinct_keys(entries: Seq<(Seq<char>, Seq<char>)>) -> bool {
    forall|i: int, j: int| 0 <= i < j < entries.len() ==> entries[i].0 != entries[j].0
}

/// The entries with one more entry put in: in place of the entry of the
/// same key, if there is one, and at the end if there is none.
pub open spec fn put(entries: Seq<(Seq<char>, Seq<char>)>, entry: (Seq<char>, Seq<char>)) -> Seq<
    (Seq<char>, Seq<char>),
> {
    if exists|i: int| member_at(entries, entry.0, i) {
        entries.update(choose|i: int| member_at(entries, entry.0, i), entry)
    } else {
        entries.push(entry)
    }
}

/// The metadata that a vehicle keeps of its record: every member but the
/// three fields that the vehicle keeps on its own, put in one after the
/// other. No key occurs twice: of two members with one key, the value of
/// the later stands at the place of the earlier.
pub open spec fn metadata_of(members: Seq<(Seq<char>, Seq<char>)>) -> Seq<(Seq<char>, Seq<char>)>
    decreases members.len(),
{
    if members.len() == 0 {
        Seq::empty()
    } else if is_own_key(members.last().0) {
        metadata_of(members.drop_last())
    } else {
        put(metadata_of(members.drop_last()), members.last())
    }
}

/// The keys and values of a list of entries.
pub open spec fn entry_views(entries: Seq<(String, String)>) -> Seq<(Seq<char>, Seq<char>)> {
    Seq::new(entries.len(), |i: int| (entries[i].0@, entries[i].1@))
}

/// Putting an entry in keeps the keys distinct.
pub proof fn lemma_put_keeps_keys_distinct(
    entries: Seq<(Seq<char>, Seq<char>)>,
    entry: (Seq<char>, Seq<char>),
)
    requires
        distinct_keys(entries),
    ensures
        distinct_keys(put(entries, entry)),
{
    if exists|i: int| member_at(entries, entry.0, i) {
        let c = choose|i: int| member_at(entries, entry.0, i);
        assert(member_at(entries, entry.0, c));
    } else {
        assert forall|i: int| 0 <= i < entries.len() implies entries[i].0 != entry.0 by {
            if entries[i].0 == entry.0 {
                lemma_first_key(entries, entry.0, i);
            }
        }
    }
}

/// A key that occurs has a first occurrence.
proof fn lemma_first_key(entries: Seq<(Seq<char>, Seq<char>)>, key: Seq<char>, i: int)
    requires
        0 <= i < entries.len(),
        entries[i].0 == key,
    ensures
        exists|j: int| member_at(entries, key, j),
    decreases i,
{
    if exists|j: int| 0 <= j < i && entries[j].0 == key {
        let j = choose|j: int| 0 <= j < i && entries[j].0 == key;
        lemma_first_key(entries, key, j);
    } else {
        assert(member_at(entries, key, i));
    }
}

/// The metadata of a record has no key twice.
pub proof fn lemma_metadata_keys_distinct(members: Seq<(Seq<char>, Seq<char>)>)
    ensures
        distinct_keys(metadata_of(members)),
    decreases members.len(),
{
    if members.len() > 0 {
        lemma_metadata_keys_distinct(members.drop_last());
        if !is_own_key(members.last().0) {
            lemma_put_keeps_keys_distinct(metadata_of(members.drop_last()), members.last());
        }
    }
}

/// The vehicle that a record stands for. A field that is missing, or is not
/// a string, is empty.
pub open spec fn vehicle_of(members: Seq<(Seq<char>, Seq<char>)>) -> VehicleModel {
    VehicleModel {
        vehicle_cd: string_or_empty(members, KEY_VEHICLE_CD@),
        vehicle_name: string_or_empty(members, KEY_VEHICLE_NAME@),
        status: string_or_empty(members, KEY_STATUS@),
        metadata: metadata_of(members),
    }
}

/// The vehicles of a table: one for each record that is a JSON object, in
/// order. Anything else in the table is passed over.
pub open spec fn vehicles_of(records: Seq<Seq<char>>) -> Seq<VehicleModel>
    decreases records.len(),
{
    if records.len() == 0 {
        Seq::empty()
    } else {
        let rest = vehicles_of(records.drop_last());
        match json_opened(records.last()) {
            Ok(JsonShape::Object(members)) => rest.push(vehicle_of(members)),
            _ => rest,
        }
    }
}

/// The views of a list of vehicles.
pub open spec fn models(vehicles: Seq<VehicleData>) -> Seq<VehicleModel> {
    Seq::new(vehicles.len(), |i: int| vehicles[i]@)
}

fn own_key(key: &str) -> (r: bool)
    ensures
        r == is_own_key(key@),
{
    let k = chars_of(key);
    let a = chars_of(KEY_VEHICLE_CD);
    let b = chars_of(KEY_VEHICLE_NAME);
    let c = chars_of(KEY_STATUS);
    equal_chars(&k, &a) || equal_chars(&k, &b) || equal_chars(&k, &c)
}

/// The text of a field, or the empty text if the field is not there.
pub open spec fn text_or_none(field: Option<String>) -> Seq<char> {
    match field {
        Some(s) => s@,
        None => Seq::empty(),
    }
}

/// The vehicle with the given three fields, where a field that is not
/// there is empty, and with the metadata of the given members: every member
/// but those of the three fields, with no key twice.
pub fn vehicle_from_fields(
    vehicle_cd: Option<String>,
    vehicle_name: Option<String>,
    status: Option<String>,
    members: &Vec<JsonMember>,
) -> (v: VehicleData)
    ensures
        v.vehicle_cd@ == text_or_none(vehicle_cd),
        v.vehicle_name@ == text_or_none(vehicle_name),
        v.status@ == text_or_none(status),
        v@.metadata == metadata_of(pairs(members@)),
        distinct_keys(v@.metadata),
{
    let mut kept: Vec<JsonMember> = Vec::new();
    let ghost all = pairs(members@);
    let mut i: usize = 0;
    while i < members.len()
        invariant
            i <= members@.len(),
            all == pairs(members@),
            pairs(kept@) == metadata_of(all.take(i as int)),
        decreases members@.len() - i,
    {
        proof {
            assert(all.take(i + 1).drop_last() =~= all.take(i as int));
            assert(all.take(i + 1).last() == all[i as int]);
        }
        if !own_key(members[i].key.as_str()) {
            let ghost before = pairs(kept@);
            let member = JsonMember { key: members[i].key.clone(), value: members[i].value.clone() };
            match find_member(&kept, members[i].key.as_str()) {
                Some(j) => {
                    proof {
                        let c = choose|c: int| member_at(before, all[i as int].0, c);
                        assert(member_at(before, all[i as int].0, j as int));
                        assert(c == j);
                    }
                    kept.set(j, member);
                    assert(pairs(kept@) =~= before.update(j as int, all[i as int]));
                },
                None => {
                    assert(!exists|c: int| member_at(before, all[i as int].0, c));
                    kept.push(member);
                    assert(pairs(kept@) =~= before.push(all[i as int]));
                },
            }
        }
        i += 1;
    }
    proof {
        assert(all.take(members@.len() as int) =~= all);
        lemma_metadata_keys_distinct(all);
    }
    let mut metadata: Vec<(String, String)> = Vec::new();
    let mut k: usize = 0;
    while k < kept.len()
        invariant
            k <= kept@.len(),
            entry_views(metadata@) == pairs(kept@).take(k as int),
        decreases kept@.len() - k,
    {
        let ghost before = entry_views(metadata@);
        metadata.push((kept[k].key.clone(), kept[k].value.clone()));
        assert(entry_views(metadata@) =~= before.push(pairs(kept@)[k as int]));
        assert(pairs(kept@).take(k + 1) =~= pairs(kept@).take(k as int).push(pairs(kept@)[k as int]));
        k += 1;
    }
    assert(pairs(kept@).take(kept@.len() as int) =~= pairs(kept@));
    let v = VehicleData {
        vehicle_cd: match vehicle_cd {
            Some(s) => s,
            None => String::new(),
        },
        vehicle_name: match vehicle_name {
            Some(s) => s,
            None => String::new(),
        },
        status: match status {
            Some(s) => s,
            None => String::new(),
        },
        metadata,
    };
    assert(v@.metadata =~= entry_views(metadata@));
    v
}

/// The vehicle that a record with the given members stands for.
pub fn vehicle_from_members(members: &Vec<JsonMember>) -> (v: VehicleData)
    ensures
        v@ == vehicle_of(pairs(members@)),
        distinct_keys(v@.metadata),
{
    vehicle_from_fields(
        string_member(members, KEY_VEHICLE_CD),
        string_member(members, KEY_VEHICLE_NAME),
        string_member(members, KEY_STATUS),
        members,
    )
}

impl DtakologScraper {
    /// The scraper with the given settings.
    pub fn new(config: DtakologConfig) -> (r: Self)
        ensures
            r.config == config,
    {
        DtakologScraper { config }
    }

    /// Reads the vehicles out of a table: one for each record that is a
    /// JSON object, with the code, the name and the status taken from the
    /// members of those names where they are strings, and every other member
    /// kept as metadata.
    pub fn parse_vehicle_data(&self, raw_data: &DtakologData) -> (vehicles: Vec<VehicleData>)
        ensures
            models(vehicles@) == vehicles_of(texts(raw_data@)),
    {
        let mut vehicles: Vec<VehicleData> = Vec::new();
        let ghost records = texts(raw_data@);
        let mut i: usize = 0;
        while i < raw_data.len()
            invariant
                i <= raw_data@.len(),
                records == texts(raw_data@),
                models(vehicles@) == vehicles_of(records.take(i as int)),
            decreases raw_data@.len() - i,
        {
            proof {
                assert(records.take(i + 1).drop_last() =~= records.take(i as int));
                assert(records.take(i + 1).last() == raw_data@[i as int]@);
            }
            match open_json(raw_data[i].as_str()) {
                Ok(JsonNode::Object(members)) => {
                    let ghost before = vehicles@;
                    let v = vehicle_from_members(&members);
                    vehicles.push(v);
                    assert(models(vehicles@) =~= models(before).push(v@));
                },
                _ => {},
            }
            i += 1;
        }
        assert(records.take(raw_data@.len() as int) =~= records);
        vehicles
    }
}

/// Polls for the service binding, the grid and the loading messages
/// before the table is fetched.
pub const EXTRACTION_POLLS: u32 = 30;

/// Milliseconds between two polls of the extraction.
pub const EXTRACTION_POLL_INTERVAL_MS: u64 = 1000;

/// Milliseconds for the page to settle once it is stable.
pub const STABLE_SETTLE_MS: u64 = 2000;

/// Milliseconds for the page to settle before the table is fetched.
pub const FETCH_SETTLE_MS: u64 = 3000;

/// The text of the error of a page without the service binding.
pub const SERVICE_MISSING: &'static str = "VenusBridgeService not found after 30s";

/// The text of the error of a payload that is JSON but no array.
pub const PAYLOAD_NOT_AN_ARRAY: &'static str = "vehicle table is not a JSON array";

/// The text of the error of a call that was answered without a payload.
pub const PAYLOAD_MISSING: &'static str = "vehicle table is missing";

/// Milliseconds after which the call for the vehicle table has timed out.
pub const VEHICLE_CALL_TIMEOUT_MS: u64 = 60000;

/// Milliseconds between two evaluations of the slot of that call.
pub const VEHICLE_POLL_INTERVAL_MS: u64 = 500;

/// What a session's name begins with.
pub const SESSION_PREFIX: &'static str = "session_";

/// What the name of a kept payload begins with.
pub const RAW_DATA_PREFIX: &'static str = "./data/vehicles_";

/// What the name of a kept payload ends in.
pub const RAW_DATA_SUFFIX: &'static str = ".json";

/// The pattern of the time in the name of a kept payload: year, month, day,
/// an underscore, hour, minute, second.
pub const STAMP_PATTERN: &'static str = "%Y%m%d_%H%M%S";

/// Seconds that the clock of the kept payloads is ahead of UTC: nine
/// hours.
pub const STAMP_OFFSET_SECS: i32 = 32400;

/// The browser that is started when none is named.
pub const DEFAULT_BROWSER: &'static str = "chromium";

/// What the name of the browser's profile directory begins with.
pub const PROFILE_PREFIX: &'static str = "dtakolog-";

/// Seconds that a request to the browser may take.
pub const REQUEST_TIMEOUT_SECS: u64 = 60;

/// The first plan of an extraction: wait for the service binding. The
/// extraction fails if it does not appear.
pub open spec fn service_check_steps() -> Seq<Step> {
    seq![
        Step {
            op: Operation::Poll {
                probe: Probe::ServiceBinding,
                attempts: EXTRACTION_POLLS,
                interval_ms: EXTRACTION_POLL_INTERVAL_MS,
            },
            best_effort: false,
        },
    ]
}

/// The second plan of an extraction: let the page settle, and wait for the
/// grid and for the loading messages to go, whether they do or not. The
/// table is then fetched over a bridged call.
pub open spec fn fetch_steps() -> Seq<Step> {
    seq![
        Step { op: Operation::AwaitDomStable, best_effort: false },
        Step { op: Operation::Sleep(STABLE_SETTLE_MS), best_effort: false },
        Step {
            op: Operation::Poll {
                probe: Probe::Grid,
                attempts: EXTRACTION_POLLS,
                interval_ms: EXTRACTION_POLL_INTERVAL_MS,
            },
            best_effort: false,
        },
        Step {
            op: Operation::Poll {
                probe: Probe::LoadingCleared,
                attempts: EXTRACTION_POLLS,
                interval_ms: EXTRACTION_POLL_INTERVAL_MS,
            },
            best_effort: false,
        },
        Step { op: Operation::Sleep(FETCH_SETTLE_MS), best_effort: false },
    ]
}

/// The first plan of an extraction.
pub fn service_check_plan() -> (steps: Vec<Step>)
    ensures
        steps@ == service_check_steps(),
{
    let mut steps: Vec<Step> = Vec::new();
    steps.push(
        Step::required(
            Operation::Poll {
                probe: Probe::ServiceBinding,
                attempts: EXTRACTION_POLLS,
                interval_ms: EXTRACTION_POLL_INTERVAL_MS,
            },
        ),
    );
    assert(steps@ =~= service_check_steps());
    steps
}

/// The second plan of an extraction.
pub fn fetch_plan() -> (steps: Vec<Step>)
    ensures
        steps@ == fetch_steps(),
{
    let mut steps: Vec<Step> = Vec::new();
    steps.push(Step::required(Operation::AwaitDomStable));
    steps.push(Step::required(Operation::Sleep(STABLE_SETTLE_MS)));
    steps.push(
        Step::required(
            Operation::Poll {
                probe: Probe::Grid,
                attempts: EXTRACTION_POLLS,
                interval_ms: EXTRACTION_POLL_INTERVAL_MS,
            },
        ),
    );
    steps.push(
        Step::required(
            Operation::Poll {
                probe: Probe::LoadingCleared,
                attempts: EXTRACTION_POLLS,
                interval_ms: EXTRACTION_POLL_INTERVAL_MS,
            },
        ),
    );
    steps.push(Step::required(Operation::Sleep(FETCH_SETTLE_MS)));
    assert(steps@ =~= fetch_steps());
    steps
}

/// What reading a payload gives: its records, each as compact JSON text,
/// if it is a JSON array, and an error of the extraction kind if it is not,
/// with the reader's message where the reader refused the text.
pub open spec fn payload_read(text: Seq<char>, r: Result<DtakologData, ScraperError>) -> bool {
    match json_opened(text) {
        Ok(JsonShape::Array(items)) => r matches Ok(raw) && texts(raw@) == items,
        Ok(_) => r matches Err(e) && e.spec_kind() == ErrorKind::Extraction && e.spec_message()
            == PAYLOAD_NOT_AN_ARRAY@,
        Err(message) => r matches Err(e) && e.spec_kind() == ErrorKind::Extraction
            && e.spec_message() == message,
    }
}

/// Reads the payload of the vehicle table.
pub fn parse_payload(text: &str) -> (r: Result<DtakologData, ScraperError>)
    ensures
        payload_read(text@, r),
{
    match open_json(text) {
        Ok(JsonNode::Array(items)) => Ok(items),
        Ok(_) => Err(ScraperError::of_kind(ErrorKind::Extraction, PAYLOAD_NOT_AN_ARRAY)),
        Err(message) => Err(ScraperError::Extraction(message)),
    }
}

/// The name of the session that begins at the given time, in seconds since
/// the epoch: `session_` and the time in decimal.
pub open spec fn session_name(timestamp: i64) -> Seq<char> {
    SESSION_PREFIX@ + signed_decimal(timestamp as int)
}

/// The name of the session that begins at the given time.
pub fn session_id(timestamp: i64) -> (id: String)
    ensures
        id@ == session_name(timestamp),
{
    let mut out = String::new();
    push_text(&mut out, SESSION_PREFIX);
    push_signed_decimal(&mut out, timestamp);
    out
}

/// What `chrono` writes for the instant that lies `unix_secs` seconds after
/// the epoch, on a clock that is `offset_secs` seconds ahead of UTC, with
/// the given pattern; `None` where `chrono` has no such instant or no such
/// clock.
pub uninterp spec fn chrono_formatted(unix_secs: i64, offset_secs: i32, pattern: Seq<char>) -> Option<
    Seq<char>,
>;

/// `chrono::FixedOffset::east_opt`, `chrono::DateTime::from_timestamp`,
/// `with_timezone` and `format`: the instant is written on the clock of the
/// given offset with the given pattern. The first two return `None` out of
/// their range. The pattern is asked to be the one of the kept payloads,
/// which holds only specifiers that `format` knows, so that writing cannot
/// fail. The result depends on the arguments alone.
#[verifier::external_body]
fn format_at_offset(unix_secs: i64, offset_secs: i32, pattern: &str) -> (r: Option<String>)
    requires
        pattern@ == STAMP_PATTERN@,
    ensures
        match r {
            Some(s) => chrono_formatted(unix_secs, offset_secs, pattern@) == Some(s@),
            None => chrono_formatted(unix_secs, offset_secs, pattern@) is None,
        },
{
    let zone = chrono::FixedOffset::east_opt(offset_secs)?;
    let instant = chrono::DateTime::from_timestamp(unix_secs, 0)?;
    Some(instant.with_timezone(&zone).format(pattern).to_string())
}

/// The name under which a payload with the given time stamp is kept.
pub open spec fn raw_data_name(stamp: Seq<char>) -> Seq<char> {
    RAW_DATA_PREFIX@ + stamp + RAW_DATA_SUFFIX@
}

/// The name under which a payload with the given time stamp is kept.
pub fn raw_data_path_for(stamp: &str) -> (path: String)
    ensures
        path@ == raw_data_name(stamp@),
{
    let mut out = String::new();
    push_text(&mut out, RAW_DATA_PREFIX);
    push_text(&mut out, stamp);
    push_text(&mut out, RAW_DATA_SUFFIX);
    out
}

/// The name under which a payload that is kept at the given time, in
/// seconds since the epoch, is kept: the time is written on a clock nine
/// hours ahead of UTC. `None` for a time that the calendar does not reach.
pub fn raw_data_path(unix_secs: i64) -> (path: Option<String>)
    ensures
        match chrono_formatted(unix_secs, STAMP_OFFSET_SECS, STAMP_PATTERN@) {
            Some(stamp) => path matches Some(p) && p@ == raw_data_name(stamp),
            None => path is None,
        },
{
    match format_at_offset(unix_secs, STAMP_OFFSET_SECS, STAMP_PATTERN) {
        Some(stamp) => Some(raw_data_path_for(stamp.as_str())),
        None => None,
    }
}

/// What a payload comes to: the records as they came and the vehicles
/// read out of them, or the error of a payload of another shape.
pub open spec fn payload_extracted(
    text: Seq<char>,
    r: Result<(Vec<VehicleData>, DtakologData), ScraperError>,
) -> bool {
    match json_opened(text) {
        Ok(JsonShape::Array(items)) => {
            &&& r matches Ok(pair)
            &&& texts(pair.1@) == items
            &&& models(pair.0@) == vehicles_of(items)
        },
        Ok(_) => r matches Err(e) && e.spec_kind() == ErrorKind::Extraction && e.spec_message()
            == PAYLOAD_NOT_AN_ARRAY@,
        Err(message) => r matches Err(e) && e.spec_kind() == ErrorKind::Extraction
            && e.spec_message() == message,
    }
}

/// What the call for the vehicle table comes to: the payload is the first
/// argument of the success callback. A remote failure is an error of the
/// script kind with the text that the page gave, and a call that nobody
/// answered in time is an error of the timeout kind.
pub open spec fn fetch_extracted(
    fetched: BridgeStatus,
    r: Result<(Vec<VehicleData>, DtakologData), ScraperError>,
) -> bool {
    match fetched {
        BridgeStatus::Resolved(arguments) => if arguments@.len() == 0 {
            r matches Err(e) && e.spec_kind() == ErrorKind::Extraction && e.spec_message()
                == PAYLOAD_MISSING@
        } else {
            payload_extracted(arguments@[0]@, r)
        },
        BridgeStatus::Failed(text) => r == Err::<(Vec<VehicleData>, DtakologData), ScraperError>(
            ScraperError::JavaScript(text),
        ),
        _ => r matches Err(ScraperError::Timeout(text)) && text@ == REMOTE_CALL_TIMED_OUT@,
    }
}

/// What an extraction comes to, given what its two plans reported and how
/// the call for the table ended.
pub open spec fn extraction_matches(
    service: Outcome,
    settled: Outcome,
    fetched: BridgeStatus,
    r: Result<(Vec<VehicleData>, DtakologData), ScraperError>,
) -> bool {
    if let Outcome::Failed { message, .. } = service {
        r matches Err(e) && e.spec_kind() == ErrorKind::JavaScript && e.spec_message() == message@
    } else if !service.spec_flag() {
        r matches Err(e) && e.spec_kind() == ErrorKind::Extraction && e.spec_message()
            == SERVICE_MISSING@
    } else if let Outcome::Failed { message, .. } = settled {
        r matches Err(e) && e.spec_kind() == ErrorKind::JavaScript && e.spec_message() == message@
    } else {
        fetch_extracted(fetched, r)
    }
}

/// The upstream answer that a result carries: the answer that came, if the
/// payload was forwarded and accepted.
pub open spec fn kept_response(
    forwards: bool,
    forwarded: Option<Result<GrpcResponse, ScraperError>>,
) -> Option<GrpcResponse> {
    if forwards && forwarded matches Some(Ok(response)) {
        Some(forwarded->0->Ok_0)
    } else {
        None
    }
}

impl DtakologScraper {
    /// Extracts the vehicle table, given what the two plans of an
    /// extraction reported and how the bridged call for the table ended:
    /// `service` for [`service_check_plan`], `settled` for [`fetch_plan`]
    /// and `fetched` for the call. The later ones are looked at only if the
    /// earlier ones went well.
    ///
    /// A failed step is an error of the script kind with the step's text. A
    /// page without the binding is an error of the extraction kind. A call
    /// that the remote side failed is an error of the script kind with the
    /// text that it gave, and a call that nobody answered in time is an
    /// error of the timeout kind, which a retry may cure. A payload that is
    /// missing or is no JSON array is an error of the extraction kind. Else
    /// the result holds the records as they came and the vehicles read out
    /// of them.
    pub fn extract_vehicle_data(
        &self,
        service: &Outcome,
        settled: &Outcome,
        fetched: BridgeStatus,
    ) -> (r: Result<(Vec<VehicleData>, DtakologData), ScraperError>)
        ensures
            extraction_matches(*service, *settled, fetched, r),
    {
        if let Outcome::Failed { message, .. } = service {
            return Err(ScraperError::of_kind(ErrorKind::JavaScript, message.as_str()));
        }
        if !service.flag() {
            return Err(ScraperError::of_kind(ErrorKind::Extraction, SERVICE_MISSING));
        }
        if let Outcome::Failed { message, .. } = settled {
            return Err(ScraperError::of_kind(ErrorKind::JavaScript, message.as_str()));
        }
        match fetched {
            BridgeStatus::Resolved(arguments) => {
                if arguments.len() == 0 {
                    return Err(ScraperError::of_kind(ErrorKind::Extraction, PAYLOAD_MISSING));
                }
                match parse_payload(arguments[0].as_str()) {
                    Ok(raw) => {
                        let vehicles = self.parse_vehicle_data(&raw);
                        Ok((vehicles, raw))
                    },
                    Err(e) => Err(e),
                }
            },
            BridgeStatus::Failed(text) => Err(ScraperError::JavaScript(text)),
            _ => Err(ScraperError::Timeout(REMOTE_CALL_TIMED_OUT.to_string())),
        }
    }

    /// Puts the result of a scrape together.
    ///
    /// A failed extraction fails the scrape with its own error. Else the
    /// scrape succeeds, whatever became of forwarding and of the videos: the
    /// result carries the upstream answer only if an upstream service is
    /// configured and accepted the payload, and the ready videos only if
    /// processing them did not fail.
    pub fn scrape(
        &self,
        session_id: String,
        extracted: Result<(Vec<VehicleData>, DtakologData), ScraperError>,
        forwarded: Option<Result<GrpcResponse, ScraperError>>,
        videos: Result<Vec<VideoNotificationResult>, ScraperError>,
    ) -> (r: Result<DtakologResult, ScraperError>)
        ensures
            match extracted {
                Err(e) => r == Err::<DtakologResult, ScraperError>(e),
                Ok(pair) => {
                    &&& r matches Ok(result)
                    &&& result.vehicles == pair.0
                    &&& result.raw_data == pair.1
                    &&& result.session_id == session_id
                    &&& result.grpc_response == kept_response(
                        self.config.grpc_url is Some,
                        forwarded,
                    )
                    &&& match videos {
                        Ok(list) => result.video_notifications == list,
                        Err(_) => result.video_notifications@.len() == 0,
                    }
                },
            },
    {
        let (vehicles, raw_data) = match extracted {
            Ok(pair) => pair,
            Err(e) => {
                return Err(e);
            },
        };
        let grpc_response = if self.config.grpc_url.is_some() {
            match forwarded {
                Some(Ok(response)) => Some(response),
                _ => None,
            }
        } else {
            None
        };
        let video_notifications = match videos {
            Ok(list) => list,
            Err(_) => Vec::new(),
        };
        Ok(DtakologResult { vehicles, raw_data, session_id, grpc_response, video_notifications })
    }

    /// The name of the profile directory of a browser that is started by the
    /// process `process_id` at `nanos` nanoseconds since the epoch.
    pub open spec fn profile_name(process_id: u32, nanos: u128) -> Seq<char> {
        PROFILE_PREFIX@ + decimal(process_id as nat) + "-"@ + decimal(nanos as nat)
    }

    /// The arguments that the browser is started with.
    pub open spec fn launch_args(debug: bool) -> Seq<Seq<char>> {
        let always = seq![
            "--disable-blink-features=AutomationControlled"@,
            "--disable-dev-shm-usage"@,
            "--disable-gpu"@,
            "--disable-web-security"@,
            "--allow-running-insecure-content"@,
        ];
        if debug {
            always + seq!["--enable-logging=stderr"@, "--v=1"@]
        } else {
            always
        }
    }

    /// How the browser of a scrape is started.
    ///
    /// The executable is `chrome_path` if that is given, else
    /// `chromium_path` if that is given, else `chromium`. The browser gets a
    /// profile directory of its own, named after the process and the time,
    /// runs without sandbox, shows a window unless the scrape is headless,
    /// and logs to the standard error stream in debug mode.
    pub fn initialize(
        &self,
        chrome_path: Option<&str>,
        chromium_path: Option<&str>,
        process_id: u32,
        nanos: u128,
    ) -> (plan: LaunchPlan)
        ensures
            plan.executable matches Some(e) && e@ == (match (chrome_path, chromium_path) {
                (Some(p), _) => p@,
                (None, Some(p)) => p@,
                (None, None) => DEFAULT_BROWSER@,
            }),
            plan.user_data_dir matches Some(d) && d@ == Self::profile_name(process_id, nanos),
            plan.with_head == !self.config.headless,
            plan.no_sandbox,
            plan.request_timeout_secs == Some(REQUEST_TIMEOUT_SECS),
            plan.window_size is None,
            plan.download_dir is None,
            texts(plan.args@) == Self::launch_args(self.config.debug),
    {
        let executable = match chrome_path {
            Some(p) => p.to_string(),
            None => match chromium_path {
                Some(p) => p.to_string(),
                None => DEFAULT_BROWSER.to_string(),
            },
        };
        let mut name = String::new();
        push_text(&mut name, PROFILE_PREFIX);
        push_decimal(&mut name, process_id as u128);
        push_text(&mut name, "-");
        push_decimal(&mut name, nanos);
        let mut args: Vec<String> = Vec::new();
        args.push("--disable-blink-features=AutomationControlled".to_string());
        args.push("--disable-dev-shm-usage".to_string());
        args.push("--disable-gpu".to_string());
        args.push("--disable-web-security".to_string());
        args.push("--allow-running-insecure-content".to_string());
        if self.config.debug {
            args.push("--enable-logging=stderr".to_string());
            args.push("--v=1".to_string());
        }
        assert(texts(args@) =~= Self::launch_args(self.config.debug));
        LaunchPlan {
            executable: Some(executable),
            user_data_dir: Some(name),
            with_head: !self.config.headless,
            no_sandbox: true,
            request_timeout_secs: Some(REQUEST_TIMEOUT_SECS),
            window_size: None,
            args,
            download_dir: None,
        }
    }
}

} // verus!
