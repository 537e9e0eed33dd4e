use framesync::chain::{
    plan_chain, preferred_surface_format, select_image_count, select_present_mode,
    select_surface_format, ColorSpace, Extent, PixelFormat, PresentMode, SurfaceCapabilities,
    SurfaceFormat,
};
use framesync::error::GfxError;

fn caps(min: u32, max: u32) -> SurfaceCapabilities {
    SurfaceCapabilities { min_image_count: min, max_image_count: max }
}

fn preferred() -> SurfaceFormat {
    SurfaceFormat { format: PixelFormat::B8G8R8A8Unorm, color_space: ColorSpace::SrgbNonlinear }
}

#[test]
fn double_buffered_fifo_chain() {
    let formats = vec![preferred()];
    let modes = vec![PresentMode::Fifo];
    let plan = plan_chain(&caps(2, 0), &formats, &modes, 1280, 720, false).unwrap();
    assert_eq!(plan.image_count, 2);
    assert_eq!(plan.present_mode, PresentMode::Fifo);
    assert_eq!(plan.format, preferred());
    assert_eq!(plan.extent, Extent { width: 1280, height: 720 });
    assert!(!plan.replaces_previous);
}

#[test]
fn image_count_raised_to_surface_minimum() {
    assert_eq!(select_image_count(2, &caps(3, 0)), 3);
    assert_eq!(select_image_count(2, &caps(1, 0)), 2);
}

#[test]
fn image_count_capped_by_surface_maximum() {
    assert_eq!(select_image_count(5, &caps(1, 3)), 3);
    assert_eq!(select_image_count(2, &caps(2, 2)), 2);
    assert_eq!(select_image_count(u32::MAX, &caps(1, 0)), u32::MAX);
}

#[test]
fn image_count_within_limits_for_many_surfaces() {
    for min in 0..6u32 {
        for max in 0..8u32 {
            if max != 0 && max < min {
                continue;
            }
            for requested in 0..10u32 {
                let n = select_image_count(requested, &caps(min, max));
                assert!(min <= n);
                if max != 0 {
                    assert!(n <= max);
                }
            }
        }
    }
}

#[test]
fn mailbox_preferred_when_offered() {
    let modes = vec![PresentMode::Immediate, PresentMode::Fifo, PresentMode::Mailbox];
    assert_eq!(select_present_mode(&modes), PresentMode::Mailbox);
}

#[test]
fn fifo_when_mailbox_missing() {
    let modes = vec![PresentMode::Immediate, PresentMode::FifoRelaxed, PresentMode::Other(7)];
    assert_eq!(select_present_mode(&modes), PresentMode::Fifo);
    assert_eq!(select_present_mode(&Vec::new()), PresentMode::Fifo);
}

#[test]
fn format_found_among_others() {
    let formats = vec![
        SurfaceFormat { format: PixelFormat::Other(50), color_space: ColorSpace::SrgbNonlinear },
        SurfaceFormat { format: PixelFormat::B8G8R8A8Unorm, color_space: ColorSpace::Other(3) },
        preferred(),
    ];
    assert_eq!(select_surface_format(&formats), Ok(preferred()));
    assert_eq!(preferred_surface_format(), preferred());
}

#[test]
fn format_without_preferred_pair_is_rejected() {
    let formats = vec![
        SurfaceFormat { format: PixelFormat::Other(50), color_space: ColorSpace::SrgbNonlinear },
        SurfaceFormat { format: PixelFormat::B8G8R8A8Unorm, color_space: ColorSpace::Other(3) },
    ];
    assert_eq!(select_surface_format(&formats), Err(GfxError::UnsupportedFormat));
    assert_eq!(select_surface_format(&Vec::new()), Err(GfxError::UnsupportedFormat));
    let modes = vec![PresentMode::Mailbox];
    assert_eq!(
        plan_chain(&caps(2, 0), &formats, &modes, 10, 10, true),
        Err(GfxError::UnsupportedFormat)
    );
}

#[test]
fn rebuilt_chain_links_previous() {
    let formats = vec![preferred()];
    let modes = vec![PresentMode::Mailbox, PresentMode::Fifo];
    let plan = plan_chain(&caps(3, 4), &formats, &modes, 640, 480, true).unwrap();
    assert_eq!(plan.image_count, 3);
    assert_eq!(plan.present_mode, PresentMode::Mailbox);
    assert!(plan.replaces_previous);
    assert_eq!(plan.extent, Extent { width: 640, height: 480 });
}

#[test]
fn only_out_of_date_is_recoverable() {
    assert!(GfxError::ChainOutOfDate.is_recoverable());
    assert!(!GfxError::UnsupportedFormat.is_recoverable());
    assert!(!GfxError::NoCapableQueueFamily.is_recoverable());
    assert!(!GfxError::UnsupportedDevice.is_recoverable());
    assert!(!GfxError::SurfaceUnavailable.is_recoverable());
}

use framesync::diagnostics::{route_message, LogLevel, MessageCategory, Severity};

#[test]
fn general_chatter_below_warning_is_dropped() {
    assert_eq!(route_message(Severity::Verbose, MessageCategory::General), None);
    assert_eq!(route_message(Severity::Info, MessageCategory::General), None);
    assert_eq!(route_message(Severity::Warning, MessageCategory::General), Some(LogLevel::Error));
}

#[test]
fn messages_routed_by_severity() {
    assert_eq!(route_message(Severity::Verbose, MessageCategory::Validation), Some(LogLevel::Trace));
    assert_eq!(route_message(Severity::Info, MessageCategory::Performance), Some(LogLevel::Info));
    assert_eq!(route_message(Severity::Warning, MessageCategory::Validation), Some(LogLevel::Error));
    assert_eq!(route_message(Severity::Error, MessageCategory::Other), Some(LogLevel::Error));
    assert_eq!(
        route_message(Severity::Error, MessageCategory::DeviceAddressBinding),
        Some(LogLevel::Error)
    );
}
