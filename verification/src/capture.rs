//! Capture bookkeeping shared by the platform backends: the screen-recording
//! permission gate, native stop/failure tracking, display indices and
//! identities, and the
//! header of frozen PNG captures.

use vstd::prelude::*;

use crate::text::str_equals;

verus! {

/// Frames waiting between a native capture callback and the encoder; a callback
/// drops a frame instead of queueing more than this many.
pub const VIDEO_FRAME_QUEUE_CAPACITY: usize = 2;

/// Outcome of the screen-recording permission check.
#[derive(Debug, Clone, Copy, PartialEq, Eq, Structural)]
pub enum PermissionState {
    Authorized,
    RestartRequired,
    SettingsRequired,
}

/// The state that answers a permission request: granting takes effect after a
/// restart, declining sends the user to System Settings.
pub open spec fn requested_state(granted: bool) -> PermissionState {
    if granted { PermissionState::RestartRequired } else { PermissionState::SettingsRequired }
}

/// One check of the permission gate with cache `cached`: the answer and the
/// cache afterwards, when preflight reports `authorized` and a request, if
/// one is made, is answered with `granted`.
pub open spec fn spec_gate_check(cached: Option<PermissionState>, authorized: bool, granted: bool) -> (PermissionState, Option<PermissionState>) {
    if authorized {
        (PermissionState::Authorized, None)
    } else {
        match cached {
            Some(state) => (state, cached),
            None => (requested_state(granted), Some(requested_state(granted))),
        }
    }
}

/// The system prompt is shown at most once until access is authorized: after
/// an unauthorized check, later unauthorized checks repeat its answer
/// whatever a request would say, and an authorized preflight always wins.
pub proof fn lemma_prompt_at_most_once(cached: Option<PermissionState>, granted: bool, later_granted: bool)
    ensures
        spec_gate_check(spec_gate_check(cached, false, granted).1, false, later_granted)
            == spec_gate_check(cached, false, granted),
        spec_gate_check(cached, false, granted).1 is Some,
        spec_gate_check(spec_gate_check(cached, false, granted).1, true, later_granted)
            == (PermissionState::Authorized, None::<PermissionState>),
{
}

/// System requests made by a run of checks starting from cache `cached`; each
/// check is `(authorized, granted)`: what preflight reports, and how a request
/// would be answered.
pub open spec fn requests_made(cached: Option<PermissionState>, checks: Seq<(bool, bool)>) -> nat
    decreases checks.len(),
{
    if checks.len() == 0 {
        0
    } else {
        let (authorized, granted) = checks[0];
        let asks: nat = if !authorized && cached is None { 1 } else { 0 };
        asks + requests_made(spec_gate_check(cached, authorized, granted).1, checks.skip(1))
    }
}

/// However many checks run while access stays unauthorized, the system is
/// asked at most once, and never again once an answer is cached.
pub proof fn lemma_at_most_one_request(cached: Option<PermissionState>, checks: Seq<(bool, bool)>)
    requires
        forall|i: int| 0 <= i < checks.len() ==> !(#[trigger] checks[i]).0,
    ensures
        requests_made(cached, checks) <= 1,
        cached is Some ==> requests_made(cached, checks) == 0,
    decreases checks.len(),
{
    if checks.len() > 0 {
        let rest = checks.skip(1);
        assert forall|i: int| 0 <= i < rest.len() implies !(#[trigger] rest[i]).0 by {
            assert(rest[i] == checks[i + 1]);
        }
        let (authorized, granted) = checks[0];
        assert(!authorized);
        let next = spec_gate_check(cached, authorized, granted).1;
        assert(next is Some);
        lemma_at_most_one_request(next, rest);
    }
}

/// Process-scoped permission gate. It remembers the answer of the one system
/// request it makes, so the prompt is shown at most once per launch, while an
/// authorized preflight always wins and clears that memory.
pub struct ScreenCapturePermissionGate {
    pub cached: Option<PermissionState>,
}

impl ScreenCapturePermissionGate {
    pub fn new() -> (gate: Self)
        ensures
            gate.cached is None,
    {
        ScreenCapturePermissionGate { cached: None }
    }

    /// Runs `preflight`; when it reports access the result is `Authorized` and the
    /// cache is cleared. Otherwise a cached answer is returned unchanged, and only
    /// when there is none is `request` run and its answer cached.
    pub fn check<P: FnOnce() -> bool, R: FnOnce() -> bool>(&mut self, preflight: P, request: R) -> (state: PermissionState)
        requires
            preflight.requires(()),
            request.requires(()),
        ensures
            exists|authorized: bool| #![trigger preflight.ensures((), authorized)]
                preflight.ensures((), authorized) && if !authorized && old(self).cached is None {
                    exists|granted: bool| #![trigger request.ensures((), granted)]
                        request.ensures((), granted)
                            && (state, final(self).cached) == spec_gate_check(old(self).cached, authorized, granted)
                } else {
                    (state, final(self).cached) == spec_gate_check(old(self).cached, authorized, false)
                },
    {
        let authorized = preflight();
        if authorized {
            self.cached = None;
            return PermissionState::Authorized;
        }
        match self.cached {
            Some(state) => state,
            None => {
                let granted = request();
                let state = if granted {
                    PermissionState::RestartRequired
                } else {
                    PermissionState::SettingsRequired
                };
                self.cached = Some(state);
                state
            },
        }
    }
}

/// What the error banner offers after a refused capture.
#[derive(Debug, Clone, Copy, PartialEq, Eq, Structural)]
pub enum RecoveryAction {
    QuitKiri,
    OpenSettings,
}

/// Why a capture cannot start for lack of permission, with the banner's
/// action; none when capture is authorized.
pub fn permission_failure(state: PermissionState) -> (failure: Option<(&'static str, RecoveryAction)>)
    ensures
        match state {
            PermissionState::Authorized => failure is None,
            PermissionState::RestartRequired => failure matches Some((message, action))
                && message@ == "Screen Recording access was granted. Quit and reopen Kiri once to finish enabling capture."@
                && action == RecoveryAction::QuitKiri,
            PermissionState::SettingsRequired => failure matches Some((message, action))
                && message@ == "Screen Recording is off. Enable Kiri in System Settings, then quit and reopen it once."@
                && action == RecoveryAction::OpenSettings,
        },
{
    match state {
        PermissionState::Authorized => None,
        PermissionState::RestartRequired => Some((
            "Screen Recording access was granted. Quit and reopen Kiri once to finish enabling capture.",
            RecoveryAction::QuitKiri,
        )),
        PermissionState::SettingsRequired => Some((
            "Screen Recording is off. Enable Kiri in System Settings, then quit and reopen it once.",
            RecoveryAction::OpenSettings,
        )),
    }
}

/// Status of native capture callbacks whose failure arrives outside the
/// synchronous stop call. A close callback racing a user-requested stop is
/// either kept as a real failure or ignored as the expected shutdown.
#[derive(Debug)]
pub struct CaptureHealth {
    pub expected_stop: bool,
    pub unexpected_failure: Option<String>,
}

impl Default for CaptureHealth {
    fn default() -> (health: Self)
        ensures
            !health.expected_stop,
            health.unexpected_failure is None,
    {
        CaptureHealth { expected_stop: false, unexpected_failure: None }
    }
}

impl CaptureHealth {
    /// Marks the coming native stop as requested by the user.
    pub fn begin_expected_stop(&mut self)
        ensures
            final(self).expected_stop,
            final(self).unexpected_failure == old(self).unexpected_failure,
    {
        self.expected_stop = true;
    }

    /// Records `message` when it is the first native stop that nobody asked
    /// for; returns whether it was recorded.
    pub fn report_unexpected_stop(&mut self, message: String) -> (recorded: bool)
        ensures
            recorded == (!old(self).expected_stop && old(self).unexpected_failure is None),
            final(self).expected_stop == old(self).expected_stop,
            final(self).unexpected_failure == if recorded {
                Some(message)
            } else {
                old(self).unexpected_failure
            },
    {
        if self.expected_stop || self.unexpected_failure.is_some() {
            return false;
        }
        self.unexpected_failure = Some(message);
        true
    }

    /// The recorded unexpected failure, if any.
    pub fn unexpected_failure(&self) -> (failure: Option<String>)
        ensures
            failure == self.unexpected_failure,
    {
        match &self.unexpected_failure {
            Some(message) => Some(message.clone()),
            None => None,
        }
    }
}

/// A native display position that has no one-based index in `u32`.
#[derive(Debug, Clone, Copy, PartialEq, Eq, Structural)]
pub struct DisplayIndexTooLarge;

/// The one-based display index that the Windows capture backend expects for
/// the zero-based position `xcap_position` of a monitor list.
pub fn windows_capture_monitor_index(xcap_position: usize) -> (index: Result<u32, DisplayIndexTooLarge>)
    ensures
        xcap_position + 1 <= u32::MAX ==> index == Ok::<u32, DisplayIndexTooLarge>((xcap_position + 1) as u32),
        xcap_position + 1 > u32::MAX ==> index is Err,
{
    if xcap_position >= 0xffff_ffff {
        Err(DisplayIndexTooLarge)
    } else {
        Ok((xcap_position + 1) as u32)
    }
}

/// A display's place in the monitor layout, captured with a frozen selection
/// and checked again before recording starts: device name, physical origin
/// and size, and the scale factor as the bits of its `f64` value.
#[derive(Debug, Clone)]
pub struct DisplayIdentity {
    pub device_name: String,
    pub physical_x: i32,
    pub physical_y: i32,
    pub physical_width: u32,
    pub physical_height: u32,
    pub scale_bits: u64,
}

/// Bits of an `f64` outside its sign.
pub const F64_MAGNITUDE_BITS: u64 = 0x7fff_ffff_ffff_ffff;
/// Bits of an `f64` exponent.
pub const F64_EXPONENT_BITS: u64 = 0x7ff0_0000_0000_0000;
/// Bits of an `f64` mantissa.
pub const F64_MANTISSA_BITS: u64 = 0x000f_ffff_ffff_ffff;

/// Whether the `f64` with bits `bits` is a NaN: all exponent bits set and a
/// nonzero mantissa.
pub open spec fn f64_bits_nan(bits: u64) -> bool {
    bits & F64_EXPONENT_BITS == F64_EXPONENT_BITS && bits & F64_MANTISSA_BITS != 0
}

/// `==` on the `f64` values with bits `a` and `b`: a NaN equals nothing,
/// positive and negative zero are equal, other values are equal when their
/// bits are.
pub open spec fn f64_bits_equal(a: u64, b: u64) -> bool {
    !f64_bits_nan(a) && !f64_bits_nan(b) && (a == b || (a & F64_MAGNITUDE_BITS == 0 && b & F64_MAGNITUDE_BITS == 0))
}

fn f64_equal(a: u64, b: u64) -> (equal: bool)
    ensures
        equal == f64_bits_equal(a, b),
{
    let a_nan = a & F64_EXPONENT_BITS == F64_EXPONENT_BITS && a & F64_MANTISSA_BITS != 0;
    let b_nan = b & F64_EXPONENT_BITS == F64_EXPONENT_BITS && b & F64_MANTISSA_BITS != 0;
    !a_nan && !b_nan && (a == b || (a & F64_MAGNITUDE_BITS == 0 && b & F64_MAGNITUDE_BITS == 0))
}

/// Whether two display identities are the same in every field, the scales
/// compared as `f64` values.
pub open spec fn same_display(a: DisplayIdentity, b: DisplayIdentity) -> bool {
    &&& a.device_name@ == b.device_name@
    &&& a.physical_x == b.physical_x
    &&& a.physical_y == b.physical_y
    &&& a.physical_width == b.physical_width
    &&& a.physical_height == b.physical_height
    &&& f64_bits_equal(a.scale_bits, b.scale_bits)
}

fn displays_equal(a: &DisplayIdentity, b: &DisplayIdentity) -> (equal: bool)
    ensures
        equal == same_display(*a, *b),
{
    a.physical_x == b.physical_x && a.physical_y == b.physical_y && a.physical_width == b.physical_width
        && a.physical_height == b.physical_height && f64_equal(a.scale_bits, b.scale_bits) && str_equals(
        a.device_name.as_str(),
        b.device_name.as_str(),
    )
}

/// The position of the one display in `candidates` identical to `expected`;
/// none when no display or more than one matches, so a changed or ambiguous
/// layout fails closed.
pub fn unique_display_identity_index(expected: &DisplayIdentity, candidates: &Vec<DisplayIdentity>) -> (index: Option<usize>)
    ensures
        match index {
            Some(i) => i < candidates@.len() && same_display(candidates@[i as int], *expected) && forall|j: int|
                0 <= j < candidates@.len() && j != i ==> !same_display(#[trigger] candidates@[j], *expected),
            None => forall|i: int|
                0 <= i < candidates@.len() && same_display(#[trigger] candidates@[i], *expected) ==> exists|j: int|
                    0 <= j < candidates@.len() && j != i && same_display(#[trigger] candidates@[j], *expected),
        },
{
    let mut found: Option<usize> = None;
    let mut k: usize = 0;
    while k < candidates.len()
        invariant
            k <= candidates@.len(),
            match found {
                Some(i) => i < k && same_display(candidates@[i as int], *expected) && forall|j: int|
                    0 <= j < k && j != i ==> !same_display(#[trigger] candidates@[j], *expected),
                None => forall|j: int| 0 <= j < k ==> !same_display(#[trigger] candidates@[j], *expected),
            },
        decreases candidates@.len() - k,
    {
        if displays_equal(&candidates[k], expected) {
            match found {
                Some(first) => {
                    proof {
                        assert(same_display(candidates@[first as int], *expected));
                        assert(same_display(candidates@[k as int], *expected));
                    }
                    return None;
                },
                None => {
                    found = Some(k);
                },
            }
        }
        k = k + 1;
    }
    found
}

/// After a failed capture the overlay is gone; unless the image already reached
/// the clipboard, the failure must be reported globally.
pub fn capture_failure_requires_global_error(copied: bool) -> (global: bool)
    ensures
        global == !copied,
{
    !copied
}

/// The eight signature bytes that open every PNG file.
pub open spec fn png_signature() -> Seq<u8> {
    seq![0x89u8, 0x50u8, 0x4eu8, 0x47u8, 0x0du8, 0x0au8, 0x1au8, 0x0au8]
}

/// Big-endian `u32` stored at `offset`.
pub open spec fn be_u32_at(bytes: Seq<u8>, offset: int) -> int {
    bytes[offset] * 0x100_0000 + bytes[offset + 1] * 0x1_0000 + bytes[offset + 2] * 0x100 + bytes[offset + 3]
}

/// Whether `png` starts with a well-formed PNG signature and IHDR chunk header.
pub open spec fn png_header_ok(png: Seq<u8>) -> bool {
    &&& png.len() >= 33
    &&& png.subrange(0, 8) == png_signature()
    &&& be_u32_at(png, 8) == 13
    &&& png.subrange(12, 16) == seq![0x49u8, 0x48u8, 0x44u8, 0x52u8]
}

/// Width and height declared by the IHDR chunk, when both are nonzero.
pub open spec fn spec_png_dimensions(png: Seq<u8>) -> Option<(u32, u32)> {
    if png_header_ok(png) && be_u32_at(png, 16) > 0 && be_u32_at(png, 20) > 0 {
        Some((be_u32_at(png, 16) as u32, be_u32_at(png, 20) as u32))
    } else {
        None
    }
}

fn be_u32(png: &[u8], offset: usize) -> (value: u32)
    requires
        offset + 4 <= png@.len(),
    ensures
        value == be_u32_at(png@, offset as int),
{
    let value = (png[offset] as u32) * 0x100_0000 + (png[offset + 1] as u32) * 0x1_0000
        + (png[offset + 2] as u32) * 0x100 + (png[offset + 3] as u32);
    value
}

/// Reads the image dimensions from a PNG header without decoding it.
pub fn capture_png_dimensions(png: &[u8]) -> (dimensions: Option<(u32, u32)>)
    ensures
        dimensions == spec_png_dimensions(png@),
{
    if png.len() < 33 {
        return None;
    }
    let signature: [u8; 8] = [0x89, 0x50, 0x4e, 0x47, 0x0d, 0x0a, 0x1a, 0x0a];
    let mut i: usize = 0;
    while i < 8
        invariant
            png@.len() >= 33,
            i <= 8,
            signature@ == png_signature(),
            forall|j: int| 0 <= j < i ==> png@[j] == png_signature()[j],
        decreases 8 - i,
    {
        if png[i] != signature[i] {
            assert(png@.subrange(0, 8)[i as int] != png_signature()[i as int]);
            return None;
        }
        i = i + 1;
    }
    assert(png@.subrange(0, 8) =~= png_signature());
    if be_u32(png, 8) != 13 {
        return None;
    }
    if png[12] != 0x49 || png[13] != 0x48 || png[14] != 0x44 || png[15] != 0x52 {
        assert(png@.subrange(12, 16) != seq![0x49u8, 0x48u8, 0x44u8, 0x52u8]) by {
            if png@.subrange(12, 16) == seq![0x49u8, 0x48u8, 0x44u8, 0x52u8] {
                assert(png@.subrange(12, 16)[0] == png@[12]);
                assert(png@.subrange(12, 16)[1] == png@[13]);
                assert(png@.subrange(12, 16)[2] == png@[14]);
                assert(png@.subrange(12, 16)[3] == png@[15]);
            }
        }
        return None;
    }
    assert(png@.subrange(12, 16) =~= seq![0x49u8, 0x48u8, 0x44u8, 0x52u8]);
    let width = be_u32(png, 16);
    let height = be_u32(png, 20);
    if width > 0 && height > 0 {
        Some((width, height))
    } else {
        None
    }
}

/// Message for a capture that is not a complete PNG.
pub const CAPTURE_IMAGE_INVALID: &'static str = "The capture image is invalid.";
/// Message for a capture whose size does not fit the display.
pub const CAPTURE_DIMENSIONS_INVALID: &'static str = "The capture dimensions are invalid.";
/// Message for a capture file far larger than its pixels need.
pub const CAPTURE_IMAGE_TOO_LARGE: &'static str = "The capture image is too large.";
/// Bytes allowed beyond four per pixel, for file size and decoding alike.
pub const CAPTURE_PNG_SIZE_SLACK: u64 = 1048576;
/// Bytes per pixel the decoder may allocate.
pub const CAPTURE_PNG_DECODE_BYTES_PER_PIXEL: u64 = 8;

/// The twelve bytes that close every PNG file: an empty IEND chunk.
pub open spec fn png_end() -> Seq<u8> {
    seq![0u8, 0u8, 0u8, 0u8, 0x49u8, 0x45u8, 0x4eu8, 0x44u8, 0xaeu8, 0x42u8, 0x60u8, 0x82u8]
}

/// Whether `png` opens with the PNG signature and closes with an IEND chunk.
pub open spec fn png_framed(png: Seq<u8>) -> bool {
    png.len() >= 12 && png.subrange(0, 8) == png_signature() && png.subrange(png.len() - 12, png.len() as int)
        == png_end()
}

/// What the checks before decoding decide: the header's size and the
/// decoder's allocation budget, or the message for the caller.
pub open spec fn spec_capture_precheck(png: Seq<u8>, max_width: i64, max_height: i64) -> Result<(u32, u32, u64), Seq<char>> {
    if !png_framed(png) || max_width <= 0 || max_height <= 0 {
        Err(CAPTURE_IMAGE_INVALID@)
    } else {
        match spec_png_dimensions(png) {
            None => Err(CAPTURE_IMAGE_INVALID@),
            Some((width, height)) => if width > max_width || height > max_height {
                Err(CAPTURE_DIMENSIONS_INVALID@)
            } else if width * height * 4 + CAPTURE_PNG_SIZE_SLACK > u64::MAX {
                Err(CAPTURE_DIMENSIONS_INVALID@)
            } else if png.len() > width * height * 4 + CAPTURE_PNG_SIZE_SLACK {
                Err(CAPTURE_IMAGE_TOO_LARGE@)
            } else if width * height * CAPTURE_PNG_DECODE_BYTES_PER_PIXEL + CAPTURE_PNG_SIZE_SLACK > u64::MAX {
                Err(CAPTURE_DIMENSIONS_INVALID@)
            } else {
                Ok(
                    (
                        width,
                        height,
                        (width * height * CAPTURE_PNG_DECODE_BYTES_PER_PIXEL + CAPTURE_PNG_SIZE_SLACK) as u64,
                    ),
                )
            },
        }
    }
}

fn ends_with_png_end(png: &[u8]) -> (found: bool)
    ensures
        found == (png@.len() >= 12 && png@.subrange(png@.len() - 12, png@.len() as int) == png_end()),
{
    if png.len() < 12 {
        return false;
    }
    let end: [u8; 12] = [0, 0, 0, 0, 0x49, 0x45, 0x4e, 0x44, 0xae, 0x42, 0x60, 0x82];
    let start = png.len() - 12;
    let mut i: usize = 0;
    while i < 12
        invariant
            png@.len() >= 12,
            png@.len() == png.len(),
            start == png@.len() - 12,
            i <= 12,
            end@ == png_end(),
            forall|j: int| 0 <= j < i ==> png@[start + j] == png_end()[j],
        decreases 12 - i,
    {
        if png[start + i] != end[i] {
            assert(png@.subrange(start as int, png@.len() as int)[i as int] != png_end()[i as int]);
            return false;
        }
        i = i + 1;
    }
    assert(png@.subrange(start as int, png@.len() as int) =~= png_end());
    true
}

fn starts_with_png_signature(png: &[u8]) -> (found: bool)
    ensures
        found == (png@.len() >= 8 && png@.subrange(0, 8) == png_signature()),
{
    if png.len() < 8 {
        return false;
    }
    let signature: [u8; 8] = [0x89, 0x50, 0x4e, 0x47, 0x0d, 0x0a, 0x1a, 0x0a];
    let mut i: usize = 0;
    while i < 8
        invariant
            png@.len() >= 8,
            i <= 8,
            signature@ == png_signature(),
            forall|j: int| 0 <= j < i ==> png@[j] == png_signature()[j],
        decreases 8 - i,
    {
        if png[i] != signature[i] {
            assert(png@.subrange(0, 8)[i as int] != png_signature()[i as int]);
            return false;
        }
        i = i + 1;
    }
    assert(png@.subrange(0, 8) =~= png_signature());
    true
}

/// Checks a captured PNG before decoding it: a complete file whose header
/// size fits `max_width` x `max_height` and whose length is plausible for
/// that size. Returns the header size and the decoder's allocation budget.
pub fn capture_png_precheck(png: &[u8], max_width: i64, max_height: i64) -> (checked: Result<(u32, u32, u64), String>)
    ensures
        match spec_capture_precheck(png@, max_width, max_height) {
            Ok(expected) => checked == Ok::<(u32, u32, u64), String>(expected),
            Err(message) => checked matches Err(m) && m@ == message,
        },
{
    if !starts_with_png_signature(png) || !ends_with_png_end(png) || max_width <= 0 || max_height <= 0 {
        return Err(String::from_str(CAPTURE_IMAGE_INVALID));
    }
    let (width, height) = match capture_png_dimensions(png) {
        Some(dimensions) => dimensions,
        None => return Err(String::from_str(CAPTURE_IMAGE_INVALID)),
    };
    if width as i64 > max_width || height as i64 > max_height {
        return Err(String::from_str(CAPTURE_DIMENSIONS_INVALID));
    }
    assert(width * height <= 0xffff_fffe_0000_0001) by (nonlinear_arith)
        requires width <= 0xffff_ffff, height <= 0xffff_ffff, width >= 0, height >= 0;
    let pixels: u64 = (width as u64) * (height as u64);
    let file_limit = match pixels.checked_mul(4) {
        Some(bytes) => bytes.checked_add(CAPTURE_PNG_SIZE_SLACK),
        None => None,
    };
    let file_limit = match file_limit {
        Some(limit) => limit,
        None => return Err(String::from_str(CAPTURE_DIMENSIONS_INVALID)),
    };
    if png.len() as u64 > file_limit {
        return Err(String::from_str(CAPTURE_IMAGE_TOO_LARGE));
    }
    let decode_limit = match pixels.checked_mul(CAPTURE_PNG_DECODE_BYTES_PER_PIXEL) {
        Some(bytes) => bytes.checked_add(CAPTURE_PNG_SIZE_SLACK),
        None => None,
    };
    match decode_limit {
        Some(limit) => Ok((width, height, limit)),
        None => Err(String::from_str(CAPTURE_DIMENSIONS_INVALID)),
    }
}

/// The size `image` decodes from `png` under the given limits; none when
/// decoding fails.
pub uninterp spec fn png_decode_dimensions(png: Seq<u8>, max_width: u32, max_height: u32, max_alloc: u64) -> Option<(u32, u32)>;

/// `image::ImageReader::decode` of `png` as a PNG, with the width, height and
/// allocation limits set; the size of the decoded image. The contract names
/// the result, and states that the decoder refuses an image wider or taller
/// than the limits.
#[verifier::external_body]
fn decoded_png_dimensions(png: &[u8], max_width: u32, max_height: u32, max_alloc: u64) -> (dimensions: Option<(u32, u32)>)
    ensures
        dimensions == png_decode_dimensions(png@, max_width, max_height, max_alloc),
        dimensions matches Some((width, height)) ==> width <= max_width && height <= max_height,
{
    let mut limits = image::Limits::default();
    limits.max_image_width = Some(max_width);
    limits.max_image_height = Some(max_height);
    limits.max_alloc = Some(max_alloc);
    let mut reader = image::ImageReader::with_format(std::io::Cursor::new(png), image::ImageFormat::Png);
    reader.limits(limits);
    reader.decode().ok().map(|image| (image.width(), image.height()))
}

/// The verdict on a decoded capture: it must decode, to the size its header
/// declares.
pub open spec fn spec_decoded_capture(header: (u32, u32), decoded: Option<(u32, u32)>) -> Result<(i64, i64), Seq<char>> {
    match decoded {
        None => Err(CAPTURE_IMAGE_INVALID@),
        Some(size) => if size == header {
            Ok((header.0 as i64, header.1 as i64))
        } else {
            Err(CAPTURE_DIMENSIONS_INVALID@)
        },
    }
}

/// Compares the decoded size of a capture with its header.
pub fn check_decoded_capture(header: (u32, u32), decoded: Option<(u32, u32)>) -> (result: Result<(i64, i64), String>)
    ensures
        match spec_decoded_capture(header, decoded) {
            Ok(size) => result == Ok::<(i64, i64), String>(size),
            Err(message) => result matches Err(m) && m@ == message,
        },
{
    match decoded {
        None => Err(String::from_str(CAPTURE_IMAGE_INVALID)),
        Some(size) => if size.0 == header.0 && size.1 == header.1 {
            Ok((header.0 as i64, header.1 as i64))
        } else {
            Err(String::from_str(CAPTURE_DIMENSIONS_INVALID))
        },
    }
}

/// The verdict on a captured PNG: the checks before decoding, then the
/// decoded size compared with the header's.
pub open spec fn spec_validate_capture_png(png: Seq<u8>, max_width: i64, max_height: i64) -> Result<(i64, i64), Seq<char>> {
    match spec_capture_precheck(png, max_width, max_height) {
        Err(message) => Err(message),
        Ok((width, height, max_alloc)) => spec_decoded_capture(
            (width, height),
            png_decode_dimensions(png, width, height, max_alloc),
        ),
    }
}

/// Validates a captured PNG against the display it came from: the checks
/// before decoding, then a bounded decode that must reproduce the header's
/// size. Returns that size.
pub fn validate_capture_png(png: &[u8], max_width: i64, max_height: i64) -> (result: Result<(i64, i64), String>)
    ensures
        match spec_validate_capture_png(png@, max_width, max_height) {
            Ok(size) => result == Ok::<(i64, i64), String>(size) && size.0 >= 0 && size.1 >= 0,
            Err(message) => result matches Err(m) && m@ == message,
        },
{
    let (width, height, max_alloc) = capture_png_precheck(png, max_width, max_height)?;
    let decoded = decoded_png_dimensions(png, width, height, max_alloc);
    check_decoded_capture((width, height), decoded)
}

} // verus!
