//! Video notifications: reading them, and deciding for each whether its
//! video is ready, can be found in the recorder's file list, or has to be
//! asked for.

use vstd::prelude::*;

use super::scraper::DtakologScraper;
use super::types::{
    DvrFileInfo, DvrNotification, NotificationModel, VideoModel, VideoNotificationResult,
};
use crate::bridge::{call_matches, AsyncBridge, BridgeStatus, Rendezvous, REMOTE_CALL_TIMED_OUT};
use crate::error::{ErrorKind, ScraperError};
use crate::json::{
    integer_member, json_opened, member_integer, member_string, open_json, pairs,
    string_member, texts, JsonMember, JsonNode, JsonShape,
};
use crate::text::{chars_of, equal_chars, push_text, push_without, without};

verus! {

/// What a video's address begins with.
pub const VIDEO_URL_PREFIX: &'static str = "http://theearth-np.com/dvrData/";

/// What a video's address ends in.
pub const VIDEO_URL_SUFFIX: &'static str = "-1.mp4";

/// The extension of a recorder's own file, which a video's address leaves
/// out.
pub const RECORDER_EXTENSION: &'static str = ".vdf";

/// The address of the video of a recorder's file: the prefix, the path, a
/// slash, the file's name without the recorder's extension, and the
/// suffix.
pub open spec fn video_url(file_path: Seq<char>, file_name: Seq<char>) -> Seq<char> {
    VIDEO_URL_PREFIX@ + file_path + "/"@ + without(file_name, RECORDER_EXTENSION@)
        + VIDEO_URL_SUFFIX@
}

/// The notification that a record with the given members stands for: all
/// eight fields must be there, the vehicle's code as an integer and the
/// others as strings.
pub open spec fn notification_of(members: Seq<(Seq<char>, Seq<char>)>) -> Option<
    NotificationModel,
> {
    if member_integer(members, "VehicleCD"@) is Some && member_string(members, "VehicleName"@)
        is Some && member_string(members, "SerialNo"@) is Some && member_string(
        members,
        "FileName"@,
    ) is Some && member_string(members, "FilePath"@) is Some && member_string(
        members,
        "EventType"@,
    ) is Some && member_string(members, "DvrDatetime"@) is Some && member_string(
        members,
        "DriverName"@,
    ) is Some {
        Some(
            NotificationModel {
                vehicle_cd: member_integer(members, "VehicleCD"@)->0,
                vehicle_name: member_string(members, "VehicleName"@)->0,
                serial_no: member_string(members, "SerialNo"@)->0,
                file_name: member_string(members, "FileName"@)->0,
                file_path: member_string(members, "FilePath"@)->0,
                event_type: member_string(members, "EventType"@)->0,
                dvr_datetime: member_string(members, "DvrDatetime"@)->0,
                driver_name: member_string(members, "DriverName"@)->0,
            },
        )
    } else {
        None
    }
}

/// The file that a record with the given members stands for: its path and
/// its name, both of which must be there as strings.
pub open spec fn file_of(members: Seq<(Seq<char>, Seq<char>)>) -> Option<(Seq<char>, Seq<char>)> {
    if member_string(members, "FilePath"@) is Some && member_string(members, "FileName"@)
        is Some {
        Some((member_string(members, "FilePath"@)->0, member_string(members, "FileName"@)->0))
    } else {
        None
    }
}

/// The notification with the given eight fields, if all of them are
/// there.
pub fn notification_from_fields(
    vehicle_cd: Option<i64>,
    vehicle_name: Option<String>,
    serial_no: Option<String>,
    file_name: Option<String>,
    file_path: Option<String>,
    event_type: Option<String>,
    dvr_datetime: Option<String>,
    driver_name: Option<String>,
) -> (r: Option<DvrNotification>)
    ensures
        r is Some == (vehicle_cd is Some && vehicle_name is Some && serial_no is Some
            && file_name is Some && file_path is Some && event_type is Some && dvr_datetime
            is Some && driver_name is Some),
        r matches Some(n) ==> {
            &&& n.vehicle_cd == vehicle_cd->0
            &&& n.vehicle_name == vehicle_name->0
            &&& n.serial_no == serial_no->0
            &&& n.file_name == file_name->0
            &&& n.file_path == file_path->0
            &&& n.event_type == event_type->0
            &&& n.dvr_datetime == dvr_datetime->0
            &&& n.driver_name == driver_name->0
        },
{
    match (
        vehicle_cd,
        vehicle_name,
        serial_no,
        file_name,
        file_path,
        event_type,
        dvr_datetime,
        driver_name,
    ) {
        (
            Some(vehicle_cd),
            Some(vehicle_name),
            Some(serial_no),
            Some(file_name),
            Some(file_path),
            Some(event_type),
            Some(dvr_datetime),
            Some(driver_name),
        ) => Some(
            DvrNotification {
                vehicle_cd,
                vehicle_name,
                serial_no,
                file_name,
                file_path,
                event_type,
                dvr_datetime,
                driver_name,
            },
        ),
        _ => None,
    }
}

/// The notification that a record with the given members stands for.
pub fn notification_from_members(members: &Vec<JsonMember>) -> (r: Option<DvrNotification>)
    ensures
        match r {
            Some(n) => notification_of(pairs(members@)) == Some(n@),
            None => notification_of(pairs(members@)) is None,
        },
{
    notification_from_fields(
        integer_member(members, "VehicleCD"),
        string_member(members, "VehicleName"),
        string_member(members, "SerialNo"),
        string_member(members, "FileName"),
        string_member(members, "FilePath"),
        string_member(members, "EventType"),
        string_member(members, "DvrDatetime"),
        string_member(members, "DriverName"),
    )
}

/// The file that a record with the given members stands for.
pub fn file_from_members(members: &Vec<JsonMember>) -> (r: Option<DvrFileInfo>)
    ensures
        match r {
            Some(f) => file_of(pairs(members@)) == Some(f@),
            None => file_of(pairs(members@)) is None,
        },
{
    let file_path = string_member(members, "FilePath");
    let file_name = string_member(members, "FileName");
    match (file_path, file_name) {
        (Some(file_path), Some(file_name)) => Some(DvrFileInfo { file_path, file_name }),
        _ => None,
    }
}

/// The address of the video of a recorder's file.
pub fn build_video_url(file_path: &str, file_name: &str) -> (url: String)
    ensures
        url@ == video_url(file_path@, file_name@),
{
    let mut out = String::new();
    push_text(&mut out, VIDEO_URL_PREFIX);
    push_text(&mut out, file_path);
    push_text(&mut out, "/");
    push_without(&mut out, file_name, RECORDER_EXTENSION);
    push_text(&mut out, VIDEO_URL_SUFFIX);
    out
}

/// The ready video of a notification, at the given address.
pub open spec fn ready_video(n: NotificationModel, url: Seq<char>) -> VideoModel {
    VideoModel {
        vehicle_cd: n.vehicle_cd,
        vehicle_name: n.vehicle_name,
        serial_no: n.serial_no,
        file_name: n.file_name,
        event_type: n.event_type,
        dvr_datetime: n.dvr_datetime,
        driver_name: n.driver_name,
        mp4_url: url,
    }
}

fn make_ready(n: &DvrNotification, url: String) -> (v: VideoNotificationResult)
    ensures
        v@ == ready_video(n@, url@),
{
    VideoNotificationResult {
        vehicle_cd: n.vehicle_cd,
        vehicle_name: n.vehicle_name.clone(),
        serial_no: n.serial_no.clone(),
        file_name: n.file_name.clone(),
        event_type: n.event_type.clone(),
        dvr_datetime: n.dvr_datetime.clone(),
        driver_name: n.driver_name.clone(),
        mp4_url: url,
    }
}

/// The first file of a list that has the name `file_name` and a path: its
/// position.
pub open spec fn matching_file(files: Seq<(Seq<char>, Seq<char>)>, file_name: Seq<char>, i: int) -> bool {
    &&& 0 <= i < files.len()
    &&& files[i].1 == file_name
    &&& files[i].0.len() > 0
    &&& forall|j: int| 0 <= j < i ==> !(files[j].1 == file_name && files[j].0.len() > 0)
}

/// No file of a list has the name `file_name` and a path.
pub open spec fn no_matching_file(files: Seq<(Seq<char>, Seq<char>)>, file_name: Seq<char>) -> bool {
    forall|j: int| 0 <= j < files.len() ==> !(files[j].1 == file_name && files[j].0.len() > 0)
}

/// The views of a list of files.
pub open spec fn file_views(files: Seq<DvrFileInfo>) -> Seq<(Seq<char>, Seq<char>)> {
    Seq::new(files.len(), |i: int| files[i]@)
}

/// What is to be done about one notification.
#[derive(Debug)]
pub enum VideoDecision {
    /// The video is ready at the address that the result carries.
    Ready(VideoNotificationResult),
    /// The notification names no path: the recorder's file list of this
    /// vehicle has to be looked at.
    NeedsFileList(i64),
    /// The file list does not hold the video either: the recorder is asked
    /// to transfer the file with this serial number and name.
    RequestTransfer { serial_no: String, file_name: String },
}

/// What is to be done about a notification before any file list is known:
/// a notification that names its path is ready, any other needs the file
/// list of its vehicle.
pub fn decide_video(n: &DvrNotification) -> (d: VideoDecision)
    ensures
        n.file_path@.len() > 0 ==> (d matches VideoDecision::Ready(v) && v@ == ready_video(
            n@,
            video_url(n.file_path@, n.file_name@),
        )),
        n.file_path@.len() == 0 ==> (d matches VideoDecision::NeedsFileList(cd) && cd
            == n.vehicle_cd),
{
    let path = chars_of(n.file_path.as_str());
    if path.len() > 0 {
        let url = build_video_url(n.file_path.as_str(), n.file_name.as_str());
        VideoDecision::Ready(make_ready(n, url))
    } else {
        VideoDecision::NeedsFileList(n.vehicle_cd)
    }
}

/// What is to be done about a notification without a path once the file
/// list of its vehicle is known: the first file of the notification's name
/// that has a path makes the video ready, and without such a file the
/// transfer is asked for.
pub fn decide_video_with_files(n: &DvrNotification, files: &Vec<DvrFileInfo>) -> (d: VideoDecision)
    ensures
        match d {
            VideoDecision::Ready(v) => exists|i: int|
                #[trigger] matching_file(file_views(files@), n.file_name@, i) && v@ == ready_video(
                    n@,
                    video_url(files@[i].file_path@, files@[i].file_name@),
                ),
            VideoDecision::RequestTransfer { serial_no, file_name } => {
                &&& no_matching_file(file_views(files@), n.file_name@)
                &&& serial_no@ == n.serial_no@
                &&& file_name@ == n.file_name@
            },
            VideoDecision::NeedsFileList(_) => false,
        },
{
    let wanted = chars_of(n.file_name.as_str());
    let mut i: usize = 0;
    while i < files.len()
        invariant
            i <= files@.len(),
            wanted@ == n.file_name@,
            forall|j: int|
                0 <= j < i ==> !(file_views(files@)[j].1 == n.file_name@ && file_views(
                    files@,
                )[j].0.len() > 0),
        decreases files@.len() - i,
    {
        let name = chars_of(files[i].file_name.as_str());
        let path = chars_of(files[i].file_path.as_str());
        if equal_chars(&name, &wanted) && path.len() > 0 {
            let url = build_video_url(files[i].file_path.as_str(), files[i].file_name.as_str());
            assert(matching_file(file_views(files@), n.file_name@, i as int));
            return VideoDecision::Ready(make_ready(n, url));
        }
        i += 1;
    }
    VideoDecision::RequestTransfer {
        serial_no: n.serial_no.clone(),
        file_name: n.file_name.clone(),
    }
}

} // verus!

verus! {

/// Milliseconds after which the notification call has timed out.
pub const DVR_CALL_TIMEOUT_MS: u64 = 60000;

/// Milliseconds between two evaluations of the notification slot.
pub const DVR_POLL_INTERVAL_MS: u64 = 500;

/// What the page answers when its service has no notification call.
pub const DVR_NOT_AVAILABLE: &'static str = "not_available";

/// The notification that a JSON text stands for, if it is an object with
/// the eight fields.
pub open spec fn record_notification(record: Seq<char>) -> Option<NotificationModel> {
    match json_opened(record) {
        Ok(JsonShape::Object(members)) => notification_of(members),
        _ => None,
    }
}

/// The file that a JSON text stands for, if it is an object with a path
/// and a name.
pub open spec fn record_file(record: Seq<char>) -> Option<(Seq<char>, Seq<char>)> {
    match json_opened(record) {
        Ok(JsonShape::Object(members)) => file_of(members),
        _ => None,
    }
}

/// The notifications that a JSON text lists: those of its elements, in
/// order, if the text is an array and every element is a notification, and
/// none if not.
pub open spec fn notifications_of(data: Seq<char>) -> Seq<NotificationModel> {
    match json_opened(data) {
        Ok(JsonShape::Array(items)) => if forall|i: int|
            0 <= i < items.len() ==> (#[trigger] record_notification(items[i])) is Some {
            Seq::new(items.len(), |i: int| record_notification(items[i])->0)
        } else {
            Seq::empty()
        },
        _ => Seq::empty(),
    }
}

/// The files that a JSON text lists: those of its elements, in order, if
/// the text is an array and every element is a file, and none if not.
pub open spec fn files_of(data: Seq<char>) -> Seq<(Seq<char>, Seq<char>)> {
    match json_opened(data) {
        Ok(JsonShape::Array(items)) => if forall|i: int|
            0 <= i < items.len() ==> (#[trigger] record_file(items[i])) is Some {
            Seq::new(items.len(), |i: int| record_file(items[i])->0)
        } else {
            Seq::empty()
        },
        _ => Seq::empty(),
    }
}

/// The views of a list of notifications.
pub open spec fn notification_views(list: Seq<DvrNotification>) -> Seq<NotificationModel> {
    Seq::new(list.len(), |i: int| list[i]@)
}

/// The views of a list of ready videos.
pub open spec fn video_views(list: Seq<VideoNotificationResult>) -> Seq<VideoModel> {
    Seq::new(list.len(), |i: int| list[i]@)
}

fn notification_from_record(record: &str) -> (r: Option<DvrNotification>)
    ensures
        match r {
            Some(n) => record_notification(record@) == Some(n@),
            None => record_notification(record@) is None,
        },
{
    match open_json(record) {
        Ok(JsonNode::Object(members)) => notification_from_members(&members),
        _ => None,
    }
}

fn file_from_record(record: &str) -> (r: Option<DvrFileInfo>)
    ensures
        match r {
            Some(f) => record_file(record@) == Some(f@),
            None => record_file(record@) is None,
        },
{
    match open_json(record) {
        Ok(JsonNode::Object(members)) => file_from_members(&members),
        _ => None,
    }
}

/// Reads a list of notifications. A text that is not a JSON array of
/// notifications gives the empty list.
pub fn parse_notifications(data: &str) -> (list: Vec<DvrNotification>)
    ensures
        notification_views(list@) == notifications_of(data@),
{
    match open_json(data) {
        Ok(JsonNode::Array(items)) => {
            let mut list: Vec<DvrNotification> = Vec::new();
            let mut i: usize = 0;
            while i < items.len()
                invariant
                    i <= items@.len(),
                    json_opened(data@) == Ok::<JsonShape, Seq<char>>(
                        JsonShape::Array(texts(items@)),
                    ),
                    list@.len() == i,
                    forall|j: int|
                        0 <= j < i ==> record_notification(texts(items@)[j]) == Some(
                            (#[trigger] list@[j])@,
                        ),
                decreases items@.len() - i,
            {
                match notification_from_record(items[i].as_str()) {
                    Some(n) => {
                        list.push(n);
                    },
                    None => {
                        assert(record_notification(texts(items@)[i as int]) is None);
                        let none: Vec<DvrNotification> = Vec::new();
                        assert(notification_views(none@) =~= notifications_of(data@));
                        return none;
                    },
                }
                i += 1;
            }
            assert forall|j: int| 0 <= j < items@.len() implies (#[trigger] record_notification(
                texts(items@)[j],
            )) is Some by {
                assert(record_notification(texts(items@)[j]) == Some(list@[j]@));
            }
            assert(notification_views(list@) =~= notifications_of(data@));
            list
        },
        _ => {
            let none: Vec<DvrNotification> = Vec::new();
            assert(notification_views(none@) =~= notifications_of(data@));
            none
        },
    }
}

/// Reads a recorder's file list. A text that is not a JSON array of files
/// gives the empty list.
pub fn parse_file_list(data: &str) -> (list: Vec<DvrFileInfo>)
    ensures
        file_views(list@) == files_of(data@),
{
    match open_json(data) {
        Ok(JsonNode::Array(items)) => {
            let mut list: Vec<DvrFileInfo> = Vec::new();
            let mut i: usize = 0;
            while i < items.len()
                invariant
                    i <= items@.len(),
                    json_opened(data@) == Ok::<JsonShape, Seq<char>>(
                        JsonShape::Array(texts(items@)),
                    ),
                    list@.len() == i,
                    forall|j: int|
                        0 <= j < i ==> record_file(texts(items@)[j]) == Some((#[trigger] list@[j])@),
                decreases items@.len() - i,
            {
                match file_from_record(items[i].as_str()) {
                    Some(f) => {
                        list.push(f);
                    },
                    None => {
                        assert(record_file(texts(items@)[i as int]) is None);
                        let none: Vec<DvrFileInfo> = Vec::new();
                        assert(file_views(none@) =~= files_of(data@));
                        return none;
                    },
                }
                i += 1;
            }
            assert forall|j: int| 0 <= j < items@.len() implies (#[trigger] record_file(
                texts(items@)[j],
            )) is Some by {
                assert(record_file(texts(items@)[j]) == Some(list@[j]@));
            }
            assert(file_views(list@) =~= files_of(data@));
            list
        },
        _ => {
            let none: Vec<DvrFileInfo> = Vec::new();
            assert(file_views(none@) =~= files_of(data@));
            none
        },
    }
}

/// Milliseconds after which a call for a file list, or for a transfer, has
/// timed out.
pub const RECORDER_CALL_TIMEOUT_MS: u64 = 30000;

/// The text of the error of a notification call that was answered with
/// something else than a count and a list.
pub const INVALID_RESULT: &'static str = "Invalid result format";

/// The string that a JSON text holds, or `default` if it holds none.
pub open spec fn string_or(text: Seq<char>, default: Seq<char>) -> Seq<char> {
    match json_opened(text) {
        Ok(JsonShape::Text(s)) => s,
        _ => default,
    }
}

/// The list of notifications, as text, that the arguments of the callback
/// deliver. The callback is given one array of a count and a list; a list
/// that is not a string stands for `"[]"`. Anything else delivers nothing.
pub open spec fn delivered_data(arguments: Seq<Seq<char>>) -> Option<Seq<char>> {
    if arguments.len() == 0 {
        None
    } else {
        match json_opened(arguments[0]) {
            Ok(JsonShape::Array(items)) => if items.len() >= 2 {
                Some(string_or(items[1], "[]"@))
            } else {
                None
            },
            _ => None,
        }
    }
}

/// What the arguments of the callback come to: the notifications that
/// they deliver, or an error of the extraction kind if they deliver none.
pub open spec fn arguments_mean(
    arguments: Seq<Seq<char>>,
    r: Result<Vec<DvrNotification>, ScraperError>,
) -> bool {
    match delivered_data(arguments) {
        Some(data) => r matches Ok(list) && notification_views(list@) == notifications_of(data),
        None => r matches Err(e) && e.spec_kind() == ErrorKind::Extraction && e.spec_message()
            == INVALID_RESULT@,
    }
}

/// What a notification call comes to: the notifications that were
/// delivered; the error of a remote failure with the text that the page
/// gave; or the error of a timeout, for a call that nobody answered.
pub open spec fn call_means(status: BridgeStatus, r: Result<Vec<DvrNotification>, ScraperError>) -> bool {
    match status {
        BridgeStatus::Resolved(arguments) => arguments_mean(texts(arguments@), r),
        BridgeStatus::Failed(text) => r == Err::<Vec<DvrNotification>, ScraperError>(
            ScraperError::JavaScript(text),
        ),
        _ => r matches Err(ScraperError::Timeout(text)) && text@ == REMOTE_CALL_TIMED_OUT@,
    }
}

fn text_or(text: &str, default: &str) -> (r: String)
    ensures
        r@ == string_or(text@, default@),
{
    match open_json(text) {
        Ok(JsonNode::Text(s)) => s,
        _ => default.to_string(),
    }
}

/// Reads the notifications out of the arguments that the callback was
/// invoked with.
pub fn notifications_from_arguments(arguments: &Vec<String>) -> (r: Result<
    Vec<DvrNotification>,
    ScraperError,
>)
    ensures
        arguments_mean(texts(arguments@), r),
{
    if arguments.len() == 0 {
        return Err(ScraperError::of_kind(ErrorKind::Extraction, INVALID_RESULT));
    }
    match open_json(arguments[0].as_str()) {
        Ok(JsonNode::Array(items)) => {
            if items.len() >= 2 {
                let data = text_or(items[1].as_str(), "[]");
                Ok(parse_notifications(data.as_str()))
            } else {
                Err(ScraperError::of_kind(ErrorKind::Extraction, INVALID_RESULT))
            }
        },
        _ => Err(ScraperError::of_kind(ErrorKind::Extraction, INVALID_RESULT)),
    }
}

/// What a notification call that has ended comes to.
pub fn call_notifications(status: BridgeStatus) -> (r: Result<Vec<DvrNotification>, ScraperError>)
    ensures
        call_means(status, r),
{
    match status {
        BridgeStatus::Resolved(arguments) => notifications_from_arguments(&arguments),
        BridgeStatus::Failed(text) => Err(ScraperError::JavaScript(text)),
        _ => Err(ScraperError::Timeout(REMOTE_CALL_TIMED_OUT.to_string())),
    }
}

/// A notification call has 120 evaluations: the 120th is made at the
/// deadline. It is the last whose answer is taken in, and the first that
/// times the call out if it sees none.
pub proof fn lemma_notification_call_takes_120_evaluations(now_ms: u64, k: int)
    requires
        k >= 0,
        now_ms + DVR_CALL_TIMEOUT_MS < u64::MAX,
    ensures
        (crate::bridge::evaluated_at(now_ms, DVR_POLL_INTERVAL_MS, k) <= crate::bridge::deadline_of(
            now_ms,
            DVR_CALL_TIMEOUT_MS,
        )) == (k <= 119),
        (crate::bridge::evaluated_at(now_ms, DVR_POLL_INTERVAL_MS, k) >= crate::bridge::deadline_of(
            now_ms,
            DVR_CALL_TIMEOUT_MS,
        )) == (k >= 119),
{
}

/// The file list, as text, that the arguments of the callback deliver: the
/// third of its five arguments, if that is a string, and the empty list if
/// it is not or is missing.
pub open spec fn delivered_files(arguments: Seq<Seq<char>>) -> Seq<char> {
    if arguments.len() > 2 {
        string_or(arguments[2], "[]"@)
    } else {
        "[]"@
    }
}

/// Reads the file list out of the arguments that the callback was invoked
/// with.
pub fn files_from_arguments(arguments: &Vec<String>) -> (list: Vec<DvrFileInfo>)
    ensures
        file_views(list@) == files_of(delivered_files(texts(arguments@))),
{
    if arguments.len() > 2 {
        let data = text_or(arguments[2].as_str(), "[]");
        parse_file_list(data.as_str())
    } else {
        parse_file_list("[]")
    }
}

/// What a call for a file list comes to: the files that were delivered;
/// the error of a remote failure with the text that the page gave; or the
/// error of a timeout, for a call that nobody answered.
pub fn call_files(status: BridgeStatus) -> (r: Result<Vec<DvrFileInfo>, ScraperError>)
    ensures
        match status {
            BridgeStatus::Resolved(arguments) => r matches Ok(list) && file_views(list@)
                == files_of(delivered_files(texts(arguments@))),
            BridgeStatus::Failed(text) => r == Err::<Vec<DvrFileInfo>, ScraperError>(
                ScraperError::JavaScript(text),
            ),
            _ => r matches Err(ScraperError::Timeout(text)) && text@ == REMOTE_CALL_TIMED_OUT@,
        },
{
    match status {
        BridgeStatus::Resolved(arguments) => Ok(files_from_arguments(&arguments)),
        BridgeStatus::Failed(text) => Err(ScraperError::JavaScript(text)),
        _ => Err(ScraperError::Timeout(REMOTE_CALL_TIMED_OUT.to_string())),
    }
}

/// Whether a call for a transfer went through: it did if its success
/// callback was invoked. A transfer that did not go through fails nothing.
pub fn call_transferred(status: &BridgeStatus) -> (r: bool)
    ensures
        r == (*status is Resolved),
{
    match status {
        BridgeStatus::Resolved(_) => true,
        _ => false,
    }
}

impl DtakologScraper {
    /// Fetches the video notifications over a bridged call whose course is
    /// known: the call is made at clock reading `now_ms`, `init_status` is
    /// what the page answered when the call was made, and `seen` is what the
    /// evaluations of the call's own slot read, one every 500 ms.
    ///
    /// The call gets a slot of its own in the bridge, and no other call is
    /// touched. A page without the notification call has no notifications.
    /// Else the call is awaited as [`AsyncBridge::await_call`] says, with a
    /// deadline of 60 s, which the 120th evaluation is made at: an answer
    /// that one of these 120 sees brings its notifications or the error of
    /// the remote failure, and a call that none of them sees answered is an
    /// error of the timeout kind, whatever is seen later.
    pub fn get_video_notifications(
        &self,
        bridge: &mut AsyncBridge,
        now_ms: u64,
        init_status: &str,
        seen: Vec<Rendezvous>,
    ) -> (r: Result<Vec<DvrNotification>, ScraperError>)
        ensures
            old(bridge).wf() ==> final(bridge).wf(),
            final(bridge).calls@.len() == old(bridge).calls@.len() + 1,
            final(bridge).get(old(bridge).calls@.len() as usize) is None,
            forall|t: usize|
                t != old(bridge).calls@.len() ==> final(bridge).get(t) == old(bridge).get(t),
            init_status@ == DVR_NOT_AVAILABLE@ ==> (r matches Ok(list) && list@.len() == 0),
            init_status@ != DVR_NOT_AVAILABLE@ ==> exists|status: BridgeStatus| #[trigger]
                call_matches(seen@, now_ms, DVR_CALL_TIMEOUT_MS, DVR_POLL_INTERVAL_MS, status)
                    && call_means(status, r),
            init_status@ != DVR_NOT_AVAILABLE@ && (forall|k: int|
                0 <= k < seen@.len() ==> !(#[trigger] seen@[k]).completed) ==> (r matches Err(
                ScraperError::Timeout(text),
            ) && text@ == REMOTE_CALL_TIMED_OUT@),
    {
        let status = chars_of(init_status);
        let unavailable = chars_of(DVR_NOT_AVAILABLE);
        if equal_chars(&status, &unavailable) {
            let token = bridge.open(now_ms, DVR_CALL_TIMEOUT_MS);
            bridge.abandon(token);
            return Ok(Vec::new());
        }
        let status = bridge.await_call(now_ms, DVR_CALL_TIMEOUT_MS, DVR_POLL_INTERVAL_MS, seen);
        let r = call_notifications(status);
        proof {
            if forall|k: int| 0 <= k < seen@.len() ==> !(#[trigger] seen@[k]).completed {
                crate::bridge::lemma_unanswered_call_times_out(
                    seen@,
                    now_ms,
                    DVR_CALL_TIMEOUT_MS,
                    DVR_POLL_INTERVAL_MS,
                    status,
                );
            }
        }
        r
    }
}

} // verus!

verus! {

/// A file transfer that is asked of a recorder.
#[derive(Debug)]
pub struct TransferRequest {
    pub serial_no: String,
    pub file_name: String,
}

impl View for TransferRequest {
    type V = (Seq<char>, Seq<char>);

    /// The serial number and the file's name.
    open spec fn view(&self) -> (Seq<char>, Seq<char>) {
        (self.serial_no@, self.file_name@)
    }
}

/// What the notifications of a scrape come to.
#[derive(Debug)]
pub struct VideoPlan {
    /// The videos that are ready, in the order of their notifications.
    pub ready: Vec<VideoNotificationResult>,
    /// The transfers to ask for, in the order of their notifications.
    pub transfers: Vec<TransferRequest>,
}

/// The address at which the video of a notification is ready, if it is:
/// under the notification's own path if it names one, else under the path of
/// the first file of the list that has the notification's name and a path.
pub open spec fn ready_url(n: NotificationModel, files: Seq<(Seq<char>, Seq<char>)>) -> Option<
    Seq<char>,
> {
    if n.file_path.len() > 0 {
        Some(video_url(n.file_path, n.file_name))
    } else if exists|i: int| matching_file(files, n.file_name, i) {
        let i = choose|i: int| matching_file(files, n.file_name, i);
        Some(video_url(files[i].0, files[i].1))
    } else {
        None
    }
}

/// The file list that goes with notification `i`; empty if none is given.
pub open spec fn list_for(lists: Seq<Vec<DvrFileInfo>>, i: int) -> Seq<(Seq<char>, Seq<char>)> {
    if 0 <= i < lists.len() {
        file_views(lists[i]@)
    } else {
        Seq::empty()
    }
}

/// The ready videos of the first `upto` notifications.
pub open spec fn ready_videos(
    ns: Seq<NotificationModel>,
    lists: Seq<Vec<DvrFileInfo>>,
    upto: int,
) -> Seq<VideoModel>
    decreases upto,
{
    if upto <= 0 || upto > ns.len() {
        Seq::empty()
    } else {
        let before = ready_videos(ns, lists, upto - 1);
        match ready_url(ns[upto - 1], list_for(lists, upto - 1)) {
            Some(url) => before.push(ready_video(ns[upto - 1], url)),
            None => before,
        }
    }
}

/// The transfers to ask for on behalf of the first `upto` notifications.
pub open spec fn transfers_for(
    ns: Seq<NotificationModel>,
    lists: Seq<Vec<DvrFileInfo>>,
    upto: int,
) -> Seq<(Seq<char>, Seq<char>)>
    decreases upto,
{
    if upto <= 0 || upto > ns.len() {
        Seq::empty()
    } else {
        let before = transfers_for(ns, lists, upto - 1);
        match ready_url(ns[upto - 1], list_for(lists, upto - 1)) {
            Some(_) => before,
            None => before.push((ns[upto - 1].serial_no, ns[upto - 1].file_name)),
        }
    }
}

/// The views of a list of transfers.
pub open spec fn transfer_views(list: Seq<TransferRequest>) -> Seq<(Seq<char>, Seq<char>)> {
    Seq::new(list.len(), |i: int| list[i]@)
}

impl DtakologScraper {
    /// Goes through the notifications of a scrape, with the file list of
    /// each vehicle that had to be looked at: `file_lists[i]` goes with
    /// `notifications[i]` and is read only if that notification names no
    /// path; a list that is not given is empty.
    ///
    /// A notification whose video is ready gives a result with the video's
    /// address; any other gives a transfer to ask for.
    pub fn process_video_notifications(
        &self,
        notifications: &Vec<DvrNotification>,
        file_lists: &Vec<Vec<DvrFileInfo>>,
    ) -> (plan: VideoPlan)
        ensures
            video_views(plan.ready@) == ready_videos(
                notification_views(notifications@),
                file_lists@,
                notifications@.len() as int,
            ),
            transfer_views(plan.transfers@) == transfers_for(
                notification_views(notifications@),
                file_lists@,
                notifications@.len() as int,
            ),
    {
        let mut ready: Vec<VideoNotificationResult> = Vec::new();
        let mut transfers: Vec<TransferRequest> = Vec::new();
        let ghost ns = notification_views(notifications@);
        let mut i: usize = 0;
        while i < notifications.len()
            invariant
                i <= notifications@.len(),
                ns == notification_views(notifications@),
                video_views(ready@) == ready_videos(ns, file_lists@, i as int),
                transfer_views(transfers@) == transfers_for(ns, file_lists@, i as int),
            decreases notifications@.len() - i,
        {
            let n = &notifications[i];
            let ghost files = list_for(file_lists@, i as int);
            let ghost ready_before = ready@;
            let ghost transfers_before = transfers@;
            let first = decide_video(n);
            let decision = match first {
                VideoDecision::NeedsFileList(_) => {
                    if i < file_lists.len() {
                        decide_video_with_files(n, &file_lists[i])
                    } else {
                        let none: Vec<DvrFileInfo> = Vec::new();
                        assert(file_views(none@) =~= files);
                        decide_video_with_files(n, &none)
                    }
                },
                other => other,
            };
            match decision {
                VideoDecision::Ready(v) => {
                    proof {
                        if n@.file_path.len() == 0 {
                            let c = choose|c: int| matching_file(files, n@.file_name, c);
                            let w = choose|w: int|
                                #[trigger] matching_file(files, n@.file_name, w) && v@
                                    == ready_video(n@, video_url(files[w].0, files[w].1));
                            assert(matching_file(files, n@.file_name, c));
                            assert(c == w);
                        }
                        assert(ready_url(ns[i as int], files) == Some(v@.mp4_url));
                    }
                    ready.push(v);
                    assert(video_views(ready@) =~= video_views(ready_before).push(v@));
                },
                VideoDecision::RequestTransfer { serial_no, file_name } => {
                    proof {
                        assert(ready_url(ns[i as int], files) is None);
                    }
                    let t = TransferRequest { serial_no, file_name };
                    transfers.push(t);
                    assert(transfer_views(transfers@) =~= transfer_views(transfers_before).push(
                        t@,
                    ));
                },
                VideoDecision::NeedsFileList(_) => {},
            }
            i += 1;
        }
        VideoPlan { ready, transfers }
    }
}

} // verus!
