//! The vehicle service: its data, and the decisions of a scrape of it.

pub mod scraper;
pub mod types;
pub mod video;

pub use scraper::DtakologScraper;
pub use types::{
    DtakologConfig, DtakologData, DtakologResult, DvrFileInfo, DvrNotification, GrpcResponse,
    VehicleData, VideoNotificationResult,
};
