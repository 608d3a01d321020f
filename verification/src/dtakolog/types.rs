//! Data of the vehicle service.

use vstd::prelude::*;

verus! {

/// Branch that is asked for when none is chosen.
pub const DEFAULT_BRANCH_ID: &'static str = "00000000";

/// Filter that is asked for when none is chosen.
pub const DEFAULT_FILTER_ID: &'static str = "0";

/// Seconds that a session is kept when no other span is chosen.
pub const DEFAULT_SESSION_TTL_SECS: u64 = 3600;

/// One vehicle of the vehicle table.
#[derive(Debug, Clone)]
pub struct VehicleData {
    pub vehicle_cd: String,
    pub vehicle_name: String,
    pub status: String,
    /// Every other member of the vehicle's record: its key, and its value
    /// as compact JSON text.
    pub metadata: Vec<(String, String)>,
}

/// [`VehicleData`] as a mathematical value.
pub struct VehicleModel {
    pub vehicle_cd: Seq<char>,
    pub vehicle_name: Seq<char>,
    pub status: Seq<char>,
    pub metadata: Seq<(Seq<char>, Seq<char>)>,
}

impl View for VehicleData {
    type V = VehicleModel;

    open spec fn view(&self) -> VehicleModel {
        VehicleModel {
            vehicle_cd: self.vehicle_cd@,
            vehicle_name: self.vehicle_name@,
            status: self.status@,
            metadata: Seq::new(
                self.metadata@.len(),
                |i: int| (self.metadata@[i].0@, self.metadata@[i].1@),
            ),
        }
    }
}

/// The vehicle table as it came: one compact JSON text for each record.
pub type DtakologData = Vec<String>;

/// What the upstream service answered to a forwarded table.
#[derive(Debug, Clone)]
pub struct GrpcResponse {
    pub success: bool,
    pub records_added: i32,
    pub total_records: i32,
    pub message: String,
}

/// A video that is ready to be fetched.
#[derive(Debug, Clone)]
pub struct VideoNotificationResult {
    pub vehicle_cd: i64,
    pub vehicle_name: String,
    pub serial_no: String,
    pub file_name: String,
    pub event_type: String,
    pub dvr_datetime: String,
    pub driver_name: String,
    pub mp4_url: String,
}

/// [`VideoNotificationResult`] as a mathematical value.
pub struct VideoModel {
    pub vehicle_cd: i64,
    pub vehicle_name: Seq<char>,
    pub serial_no: Seq<char>,
    pub file_name: Seq<char>,
    pub event_type: Seq<char>,
    pub dvr_datetime: Seq<char>,
    pub driver_name: Seq<char>,
    pub mp4_url: Seq<char>,
}

impl View for VideoNotificationResult {
    type V = VideoModel;

    open spec fn view(&self) -> VideoModel {
        VideoModel {
            vehicle_cd: self.vehicle_cd,
            vehicle_name: self.vehicle_name@,
            serial_no: self.serial_no@,
            file_name: self.file_name@,
            event_type: self.event_type@,
            dvr_datetime: self.dvr_datetime@,
            driver_name: self.driver_name@,
            mp4_url: self.mp4_url@,
        }
    }
}

/// A notification that a recorder has a video of an event.
#[derive(Debug, Clone)]
pub struct DvrNotification {
    pub vehicle_cd: i64,
    pub vehicle_name: String,
    pub serial_no: String,
    pub file_name: String,
    pub file_path: String,
    pub event_type: String,
    pub dvr_datetime: String,
    pub driver_name: String,
}

/// [`DvrNotification`] as a mathematical value.
pub struct NotificationModel {
    pub vehicle_cd: i64,
    pub vehicle_name: Seq<char>,
    pub serial_no: Seq<char>,
    pub file_name: Seq<char>,
    pub file_path: Seq<char>,
    pub event_type: Seq<char>,
    pub dvr_datetime: Seq<char>,
    pub driver_name: Seq<char>,
}

impl View for DvrNotification {
    type V = NotificationModel;

    open spec fn view(&self) -> NotificationModel {
        NotificationModel {
            vehicle_cd: self.vehicle_cd,
            vehicle_name: self.vehicle_name@,
            serial_no: self.serial_no@,
            file_name: self.file_name@,
            file_path: self.file_path@,
            event_type: self.event_type@,
            dvr_datetime: self.dvr_datetime@,
            driver_name: self.driver_name@,
        }
    }
}

/// One file of a recorder's file list.
#[derive(Debug, Clone)]
pub struct DvrFileInfo {
    pub file_path: String,
    pub file_name: String,
}

impl View for DvrFileInfo {
    type V = (Seq<char>, Seq<char>);

    /// The path and the name.
    open spec fn view(&self) -> (Seq<char>, Seq<char>) {
        (self.file_path@, self.file_name@)
    }
}

/// The result of one scrape.
#[derive(Debug, Clone)]
pub struct DtakologResult {
    /// The vehicles that were read out of the table.
    pub vehicles: Vec<VehicleData>,
    /// The table as it came.
    pub raw_data: DtakologData,
    /// Name of the session that the scrape ran in.
    pub session_id: String,
    /// The upstream answer, if the table was forwarded and accepted.
    pub grpc_response: Option<GrpcResponse>,
    /// The videos that are ready.
    pub video_notifications: Vec<VideoNotificationResult>,
}

/// Settings of a scrape of the vehicle service.
#[derive(Debug, Clone)]
pub struct DtakologConfig {
    pub comp_id: String,
    pub user_name: String,
    pub user_pass: String,
    pub branch_id: String,
    pub filter_id: String,
    pub headless: bool,
    pub debug: bool,
    pub session_ttl_secs: u64,
    /// Address of the upstream service; the table is forwarded only if one
    /// is given.
    pub grpc_url: Option<String>,
    pub grpc_organization_id: Option<String>,
}

impl Default for DtakologConfig {
    fn default() -> (r: Self)
        ensures
            r.comp_id@ == Seq::<char>::empty(),
            r.user_name@ == Seq::<char>::empty(),
            r.user_pass@ == Seq::<char>::empty(),
            r.branch_id@ == DEFAULT_BRANCH_ID@,
            r.filter_id@ == DEFAULT_FILTER_ID@,
            r.headless,
            !r.debug,
            r.session_ttl_secs == DEFAULT_SESSION_TTL_SECS,
            r.grpc_url is None,
            r.grpc_organization_id is None,
    {
        DtakologConfig {
            comp_id: String::new(),
            user_name: String::new(),
            user_pass: String::new(),
            branch_id: DEFAULT_BRANCH_ID.to_string(),
            filter_id: DEFAULT_FILTER_ID.to_string(),
            headless: true,
            debug: false,
            session_ttl_secs: DEFAULT_SESSION_TTL_SECS,
            grpc_url: None,
            grpc_organization_id: None,
        }
    }
}

} // verus!
