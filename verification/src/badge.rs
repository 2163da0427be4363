//! The badge command: decide what one badge update asks of the platform,
//! and format the strings the handler returns.
//!
//! A badge update arrives as a count, an optional raw RGBA pixel buffer and
//! optional dimensions. This module validates the request and turns it into
//! a [`BadgeAction`]: clear the overlay icon, install an image built from
//! exactly the given bytes and dimensions, or — on platforms without an
//! overlay-icon concept — accept the call and do nothing. The GUI shell
//! performs the platform call for the chosen action and feeds its outcome
//! back through [`finish_clear`] or [`finish_install`].

use vstd::prelude::*;
use vstd::string::StringExecFns;

verus! {

/// An overlay image as the platform is asked to draw it: raw RGBA bytes,
/// one byte per channel, at the given dimensions. The buffer is handed on
/// unmodified; its length is not checked against the dimensions, matching
/// the handler's interface, which leaves that to the platform.
#[derive(Debug)]
pub struct BadgeImage {
    pub rgba: Vec<u8>,
    pub width: u32,
    pub height: u32,
}

impl BadgeImage {
    /// Dimensions the platform can draw: both sides are positive.
    pub open spec fn wf(self) -> bool {
        self.width > 0 && self.height > 0
    }
}

/// What the platform layer is asked to do for one accepted badge update.
#[derive(Debug)]
pub enum BadgeAction {
    /// The platform has no overlay-icon concept: accept the call and do
    /// nothing.
    Skip,
    /// Remove any existing overlay icon.
    Clear,
    /// Install the image as the window's overlay icon.
    Install(BadgeImage),
}

/// The decision a badge update comes to, as a mathematical value: either
/// one of the three platform actions or a rejection with its message. Used
/// only in specifications.
pub enum BadgeDecision {
    /// Accept the call without any platform action.
    Skip,
    /// Ask the platform to remove the overlay icon.
    Clear,
    /// Ask the platform to install exactly these bytes at these dimensions.
    Install { rgba: Seq<u8>, width: u32, height: u32 },
    /// Reject the update with this message; no platform action follows.
    Reject { message: Seq<char> },
}

/// The message returned when a nonzero count comes with a pixel buffer but
/// without usable dimensions.
pub open spec fn invalid_dimensions_message() -> Seq<char> {
    "Invalid image dimensions"@
}

/// Dimensions are usable when both are present and positive; an absent
/// dimension counts as zero.
pub open spec fn dimensions_valid(width: Option<u32>, height: Option<u32>) -> bool {
    &&& width matches Some(w) && w > 0
    &&& height matches Some(h) && h > 0
}

/// A badge update asks for the overlay icon to be cleared when the count is
/// zero or no pixel buffer came with it.
pub open spec fn requests_clear(count: u32, rgba: Option<Seq<u8>>) -> bool {
    count == 0 || rgba is None
}

/// The bytes of an optional pixel buffer, as the decision sees them.
pub open spec fn buffer_view(rgba: Option<Vec<u8>>) -> Option<Seq<u8>> {
    match rgba {
        Some(buf) => Some(buf@),
        None => None,
    }
}

/// What one badge update decides, before any platform call is made.
///
/// On a platform without overlay icons every update is accepted unchanged.
/// Otherwise a zero count or an absent buffer clears the icon; a nonzero
/// count with a buffer installs it at the given dimensions, or is rejected
/// when either dimension is zero or absent.
pub open spec fn badge_decision(
    overlay_supported: bool,
    count: u32,
    rgba: Option<Seq<u8>>,
    width: Option<u32>,
    height: Option<u32>,
) -> BadgeDecision {
    if !overlay_supported {
        BadgeDecision::Skip
    } else if requests_clear(count, rgba) {
        BadgeDecision::Clear
    } else if !dimensions_valid(width, height) {
        BadgeDecision::Reject { message: invalid_dimensions_message() }
    } else {
        BadgeDecision::Install { rgba: rgba->0, width: width->0, height: height->0 }
    }
}

/// How a handler result realises a decision: accepted updates carry the
/// decided action, rejected ones carry exactly the decided message.
pub open spec fn action_matches_decision(r: Result<BadgeAction, String>, d: BadgeDecision) -> bool {
    match d {
        BadgeDecision::Skip => r == Ok::<BadgeAction, String>(BadgeAction::Skip),
        BadgeDecision::Clear => r == Ok::<BadgeAction, String>(BadgeAction::Clear),
        BadgeDecision::Install { rgba, width, height } => {
            &&& r matches Ok(a)
            &&& a matches BadgeAction::Install(img)
            &&& img.rgba@ == rgba
            &&& img.width == width
            &&& img.height == height
        },
        BadgeDecision::Reject { message } => r matches Err(m) && m@ == message,
    }
}

/// Turn one badge update into the platform action it asks for, or the
/// rejection message the handler returns. No platform call is made here;
/// the caller performs the returned action and no other.
pub fn set_badge_count(
    overlay_supported: bool,
    count: u32,
    rgba: Option<Vec<u8>>,
    width: Option<u32>,
    height: Option<u32>,
) -> (r: Result<BadgeAction, String>)
    ensures
        action_matches_decision(
            r,
            badge_decision(overlay_supported, count, buffer_view(rgba), width, height),
        ),
        r matches Ok(BadgeAction::Install(img)) ==> img.wf(),
{
    if !overlay_supported {
        return Ok(BadgeAction::Skip);
    }
    match rgba {
        None => Ok(BadgeAction::Clear),
        Some(buf) => {
            if count == 0 {
                Ok(BadgeAction::Clear)
            } else {
                let w = width.unwrap_or(0);
                let h = height.unwrap_or(0);
                if w == 0 || h == 0 {
                    Err("Invalid image dimensions".to_owned())
                } else {
                    Ok(BadgeAction::Install(BadgeImage { rgba: buf, width: w, height: h }))
                }
            }
        },
    }
}

/// Law: on a supporting platform, a zero count clears the badge, whatever
/// pixel buffer and dimensions come with it.
pub proof fn lemma_zero_count_clears(
    rgba: Option<Seq<u8>>,
    width: Option<u32>,
    height: Option<u32>,
)
    ensures
        badge_decision(true, 0, rgba, width, height) == BadgeDecision::Clear,
{
}

/// Law: an update without a pixel buffer decides exactly as one with a zero
/// count does, whatever buffer that one carries; on a supporting platform
/// both clear the badge.
pub proof fn lemma_absent_buffer_like_zero_count(
    overlay_supported: bool,
    count: u32,
    rgba: Option<Seq<u8>>,
    width: Option<u32>,
    height: Option<u32>,
)
    ensures
        badge_decision(overlay_supported, count, None, width, height) == badge_decision(
            overlay_supported,
            0,
            rgba,
            width,
            height,
        ),
        overlay_supported ==> badge_decision(overlay_supported, count, None, width, height)
            == BadgeDecision::Clear,
{
}

/// Law: a nonzero count with a pixel buffer but a zero or absent dimension
/// is rejected with the invalid-dimensions message, and no platform action
/// is decided.
pub proof fn lemma_invalid_dimensions_rejected(
    count: u32,
    rgba: Seq<u8>,
    width: Option<u32>,
    height: Option<u32>,
)
    requires
        count > 0,
        !dimensions_valid(width, height),
    ensures
        badge_decision(true, count, Some(rgba), width, height) == (BadgeDecision::Reject {
            message: invalid_dimensions_message(),
        }),
{
}

/// Law: a nonzero count with a pixel buffer and positive dimensions decides
/// to install exactly the given bytes at exactly the given width and
/// height, unmodified.
pub proof fn lemma_valid_update_installs_exact_image(
    count: u32,
    rgba: Seq<u8>,
    width: u32,
    height: u32,
)
    requires
        count > 0,
        width > 0,
        height > 0,
    ensures
        badge_decision(true, count, Some(rgba), Some(width), Some(height))
            == (BadgeDecision::Install { rgba, width, height }),
{
}

/// Law: on a platform without overlay icons, every update — whatever its
/// count, buffer and dimensions — is accepted with no platform action.
pub proof fn lemma_unsupported_platform_accepts(
    count: u32,
    rgba: Option<Seq<u8>>,
    width: Option<u32>,
    height: Option<u32>,
)
    ensures
        badge_decision(false, count, rgba, width, height) == BadgeDecision::Skip,
{
}

/// The handler's message when the platform fails to clear the overlay icon,
/// wrapping the platform's own message.
pub open spec fn clear_failure_of(platform_error: Seq<char>) -> Seq<char> {
    "Failed to clear overlay icon: "@ + platform_error
}

/// The handler's message when the platform fails to install the overlay
/// icon, wrapping the platform's own message.
pub open spec fn install_failure_of(platform_error: Seq<char>) -> Seq<char> {
    "Failed to set overlay icon: "@ + platform_error
}

/// Fold the platform's outcome of clearing the overlay icon into the
/// handler's result: success passes through, a failure is wrapped with the
/// clear-failure context.
pub fn finish_clear(platform: Result<(), String>) -> (r: Result<(), String>)
    ensures
        platform is Ok <==> r is Ok,
        platform matches Err(e) ==> r matches Err(m) && m@ == clear_failure_of(e@),
{
    match platform {
        Ok(()) => Ok(()),
        Err(e) => Err("Failed to clear overlay icon: ".to_owned().concat(e.as_str())),
    }
}

/// Fold the platform's outcome of installing the overlay icon into the
/// handler's result: success passes through, a failure is wrapped with the
/// install-failure context.
pub fn finish_install(platform: Result<(), String>) -> (r: Result<(), String>)
    ensures
        platform is Ok <==> r is Ok,
        platform matches Err(e) ==> r matches Err(m) && m@ == install_failure_of(e@),
{
    match platform {
        Ok(()) => Ok(()),
        Err(e) => Err("Failed to set overlay icon: ".to_owned().concat(e.as_str())),
    }
}

} // verus!
