use vstd::prelude::*;

verus! {

/// How severe a message from the validation layers is, from least to most.
#[derive(Clone, Copy, Debug, PartialEq, Eq, Structural)]
pub enum Severity {
    Verbose,
    Info,
    Warning,
    Error,
}

/// What a message from the validation layers is about.
#[derive(Clone, Copy, Debug, PartialEq, Eq, Structural)]
pub enum MessageCategory {
    General,
    Validation,
    Performance,
    DeviceAddressBinding,
    /// Several categories at once, or one this library does not know.
    Other,
}

/// The level a routed message is logged at.
#[derive(Clone, Copy, Debug, PartialEq, Eq, Structural)]
pub enum LogLevel {
    Trace,
    Info,
    Error,
}

/// The rank of a severity in its order.
pub open spec fn severity_rank(s: Severity) -> int {
    match s {
        Severity::Verbose => 0,
        Severity::Info => 1,
        Severity::Warning => 2,
        Severity::Error => 3,
    }
}

/// General chatter below warning level is dropped; everything else is
/// logged, warnings as errors.
pub open spec fn route(severity: Severity, category: MessageCategory) -> Option<LogLevel> {
    if severity_rank(severity) < severity_rank(Severity::Warning) && category == MessageCategory::General {
        None
    } else {
        Some(
            match severity {
                Severity::Verbose => LogLevel::Trace,
                Severity::Info => LogLevel::Info,
                Severity::Warning => LogLevel::Error,
                Severity::Error => LogLevel::Error,
            },
        )
    }
}

/// The level at which a message is logged, or `None` when it is dropped.
pub fn route_message(severity: Severity, category: MessageCategory) -> (r: Option<LogLevel>)
    ensures
        r == route(severity, category),
{
    let below_warning = match severity {
        Severity::Verbose | Severity::Info => true,
        _ => false,
    };
    if below_warning && category == MessageCategory::General {
        return None;
    }
    Some(
        match severity {
            Severity::Verbose => LogLevel::Trace,
            Severity::Info => LogLevel::Info,
            Severity::Warning => LogLevel::Error,
            Severity::Error => LogLevel::Error,
        },
    )
}

} // verus!
