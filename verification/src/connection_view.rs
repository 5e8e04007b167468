//! The characteristic-value view controller: stepping through the value
//! history, copy-to-clipboard requests, and the numeric reading of a payload.

use crate::bluetooth::ConnectedCharacteristic;
use crate::ids::uuid_str_of;
use crate::ids::uuid_string;
use crate::keys::Key;
use crate::route::Route;
use crate::tui::HandleKeydownResult;
use crate::Ctx;
use vstd::prelude::*;

verus! {

/// The controller of the value view.
pub struct ConnectionView {
    /// Whether payloads are read as floating-point numbers (done by the
    /// front end).
    pub float_numbers: bool,
    /// Whether payloads are read as unsigned integers.
    pub unsigned_numbers: bool,
    /// Render ticks left during which the characteristic-copy help entry is
    /// highlighted.
    pub highlight_copy_char_renders_delay_stack: u8,
    /// Render ticks left during which the service-copy help entry is
    /// highlighted.
    pub highlight_copy_service_renders_delay_stack: u8,
    /// Whether a clipboard is available to the front end.
    pub clipboard_available: bool,
}

/// Where the history cursor stands after one navigation key: left steps to
/// the previous value (or from the live view to the last recorded one),
/// right steps forward and re-enters the live view from the second-newest
/// value, and `l` returns to the live view at once.
pub open spec fn spec_nav_index(len: nat, cur: Option<usize>, key: Key) -> Option<usize> {
    if key == Key::Left {
        match cur {
            Some(c) => if c >= 1 {
                Some((c - 1) as usize)
            } else {
                Some(c)
            },
            None => if len > 0 {
                Some((len - 1) as usize)
            } else {
                None
            },
        }
    } else if key == Key::Char('l') {
        None
    } else if key == Key::Right {
        match cur {
            Some(c) => if c + 2 == len {
                None
            } else if c < len {
                Some((c + 1) as usize)
            } else {
                Some(c)
            },
            None => None,
        }
    } else {
        cur
    }
}

/// A stored cursor position, after the clamping the index cell applies.
pub open spec fn spec_clamped_index(target: Option<usize>) -> Option<usize> {
    match target {
        None => None,
        Some(v) => if v <= isize::MAX as usize {
            Some(v)
        } else {
            Some(isize::MAX as usize)
        },
    }
}

/// Everything one key does to the view and the shared state, clause for
/// clause: the postcondition of `ConnectionView::handle_input`, stated over
/// the states before and after the call, the returned routing outcome `r0`
/// and the returned copy request.
pub open spec fn spec_handle_input(
    pre: ConnectionView,
    post: ConnectionView,
    pre_ctx: Ctx,
    post_ctx: Ctx,
    key: Key,
    r0: HandleKeydownResult,
    copy: Option<String>,
) -> bool {
    &&& (post_ctx.wf())
    &&& (post_ctx.latest_scan == pre_ctx.latest_scan)
    &&& (post_ctx.args == pre_ctx.args)
    &&& (post_ctx.global_error == pre_ctx.global_error)
    &&& (post_ctx.request_scan_restart == pre_ctx.request_scan_restart)
    &&& (post_ctx.general_options == pre_ctx.general_options)
    &&& (post_ctx.side_effect_tasks == pre_ctx.side_effect_tasks)
    &&& (post_ctx.active_side_effect_handle == pre_ctx.active_side_effect_handle)
    &&& (post_ctx.pending_spawn == pre_ctx.pending_spawn)
    &&& (key == Key::Char('f') ==> r0 == HandleKeydownResult::Handled && copy is None
                && post_ctx == pre_ctx && post == (ConnectionView {
                float_numbers: !pre.float_numbers,
                ..pre
            }))
    &&& (key == Key::Char('u') ==> r0 == HandleKeydownResult::Handled && copy is None
                && post_ctx == pre_ctx && post == (ConnectionView {
                unsigned_numbers: !pre.unsigned_numbers,
                ..pre
            }))
    &&& (!(key == Key::Char('f') || key == Key::Char('u')) && !(pre_ctx.active_route is CharacteristicView) ==> r0 == HandleKeydownResult::Continue
                && copy is None && post_ctx == pre_ctx && post == pre)
    &&& (pre_ctx.active_route matches Route::CharacteristicView {
                peripheral,
                characteristic,
                historical_view_index,
                history,
            } ==> !(key == Key::Char('f') || key == Key::Char('u')) ==> {
                &&& post_ctx.active_route matches Route::CharacteristicView {
                    peripheral: fp,
                    characteristic: fc,
                    historical_view_index: fh,
                    history: fhist,
                } && fp == peripheral && fc == characteristic && fhist == history
                    && fh.spec_read() == spec_clamped_index(
                    spec_nav_index(history@.len(), historical_view_index.spec_read(), key),
                )
                &&& (key == Key::Left || key == Key::Right) ==> r0
                    == HandleKeydownResult::Handled && copy is None
                &&& !(key == Key::Left || key == Key::Right) ==> r0
                    == HandleKeydownResult::Continue
                &&& (key == Key::Char('c') && pre.clipboard_available) ==> (copy matches Some(
                    t,
                ) && t@ == uuid_str_of(characteristic.uuid)) && post == (ConnectionView {
                    highlight_copy_char_renders_delay_stack: 4u8,
                    ..pre
                })
                &&& (key == Key::Char('s') && pre.clipboard_available) ==> (copy matches Some(
                    t,
                ) && t@ == uuid_str_of(characteristic.service_uuid)) && post == (
                ConnectionView { highlight_copy_service_renders_delay_stack: 4u8, ..pre })
                &&& !((key == Key::Char('c') || key == Key::Char('s')) && pre.clipboard_available) ==> copy is None && post == pre
            })
}

impl ConnectionView {
    /// The controller at startup: plain signed readings, no highlights.
    pub fn new(clipboard_available: bool) -> (r: Self)
        ensures
            r.float_numbers == false,
            r.unsigned_numbers == false,
            r.highlight_copy_char_renders_delay_stack == 0,
            r.highlight_copy_service_renders_delay_stack == 0,
            r.clipboard_available == clipboard_available,
    {
        ConnectionView {
            float_numbers: false,
            unsigned_numbers: false,
            highlight_copy_char_renders_delay_stack: 0,
            highlight_copy_service_renders_delay_stack: 0,
            clipboard_available,
        }
    }

    /// Routes one key through the view: `f` and `u` flip how payloads are
    /// read; on the value view, left and right step through the history (and
    /// are always consumed there), `l` returns to the live view, and `c` or
    /// `s` ask the front end to copy the characteristic's or service's id.
    pub fn handle_input(&mut self, ctx: &mut Ctx, key: &Key) -> (r: (
        HandleKeydownResult,
        Option<String>,
    ))
        requires
            old(ctx).wf(),
        ensures
            spec_handle_input(*old(self), *final(self), *old(ctx), *final(ctx), *key, r.0, r.1),
    {
        match key {
            Key::Char('f') => {
                self.float_numbers = !self.float_numbers;
                return (HandleKeydownResult::Handled, None);
            },
            Key::Char('u') => {
                self.unsigned_numbers = !self.unsigned_numbers;
                return (HandleKeydownResult::Handled, None);
            },
            _ => {},
        }
        let is_char_view = match &ctx.active_route {
            Route::CharacteristicView { .. } => true,
            _ => false,
        };
        if !is_char_view {
            return (HandleKeydownResult::Continue, None);
        }
        proof {
            match old(ctx).active_route {
                Route::CharacteristicView { historical_view_index: h0, .. } => {
                    h0.lemma_read_in_range();
                },
                _ => {},
            }
        }
        let mut cur_route = Route::PeripheralList;
        core::mem::swap(&mut ctx.active_route, &mut cur_route);
        let mut char_uuid: u128 = 0;
        let mut service_uuid: u128 = 0;
        let updated = match cur_route {
            Route::CharacteristicView {
                peripheral,
                characteristic,
                mut historical_view_index,
                history,
            } => {
                char_uuid = characteristic.uuid;
                service_uuid = characteristic.service_uuid;
                let len = history.len();
                let cur = historical_view_index.read();
                match (key, cur) {
                    (Key::Left, Some(c)) => {
                        if c >= 1 {
                            historical_view_index.write(c - 1);
                        }
                    },
                    (Key::Left, None) => {
                        if len > 0 {
                            historical_view_index.write(len - 1);
                        }
                    },
                    (Key::Char('l'), _) => {
                        historical_view_index.annulate();
                    },
                    (Key::Right, Some(c)) => {
                        if len >= 2 && c == len - 2 {
                            historical_view_index.annulate();
                        } else if c < len {
                            historical_view_index.write(c + 1);
                        }
                    },
                    _ => {},
                }
                Route::CharacteristicView {
                    peripheral,
                    characteristic,
                    historical_view_index,
                    history,
                }
            },
            other => other,
        };
        ctx.active_route = updated;
        let mut copy: Option<String> = None;
        if self.clipboard_available {
            match key {
                Key::Char('c') => {
                    copy = Some(uuid_string(char_uuid));
                    self.highlight_copy_char_renders_delay_stack = 4;
                },
                Key::Char('s') => {
                    copy = Some(uuid_string(service_uuid));
                    self.highlight_copy_service_renders_delay_stack = 4;
                },
                _ => {},
            }
        }
        match key {
            Key::Left | Key::Right => (HandleKeydownResult::Handled, copy),
            _ => (HandleKeydownResult::Continue, copy),
        }
    }
}

/// Which recorded value the view shows: the chosen historical one while it
/// is in range, else the latest received one, else nothing.
pub open spec fn spec_active_value_index(len: nat, historical: Option<usize>) -> Option<usize> {
    match historical {
        Some(i) => if i < len {
            Some(i)
        } else {
            None
        },
        None => if len > 0 {
            Some((len - 1) as usize)
        } else {
            None
        },
    }
}

/// Picks which recorded value the view shows.
pub fn active_value_index(len: usize, historical: Option<usize>) -> (r: Option<usize>)
    ensures
        r == spec_active_value_index(len as nat, historical),
{
    match historical {
        Some(i) => if i < len {
            Some(i)
        } else {
            None
        },
        None => if len > 0 {
            Some(len - 1)
        } else {
            None
        },
    }
}

} // verus!

verus! {

/// The value of a little-endian byte sequence: the first byte is the least
/// significant.
pub open spec fn le_bytes_value(s: Seq<u8>) -> nat
    decreases s.len(),
{
    if s.len() == 0 {
        0
    } else {
        (s[0] + 256 * le_bytes_value(s.skip(1))) as nat
    }
}

/// Powers of 256.
pub open spec fn pow256(n: nat) -> nat
    decreases n,
{
    if n == 0 {
        1nat
    } else {
        256 * pow256((n - 1) as nat)
    }
}

/// A little-endian value fits in as many bytes as it was read from.
proof fn lemma_le_bytes_bound(s: Seq<u8>)
    ensures
        le_bytes_value(s) < pow256(s.len()),
    decreases s.len(),
{
    if s.len() > 0 {
        lemma_le_bytes_bound(s.skip(1));
        assert(s[0] < 256);
        assert(le_bytes_value(s.skip(1)) <= pow256(s.skip(1).len()) - 1);
        assert(pow256(s.len()) == 256 * pow256((s.len() - 1) as nat));
    }
}

/// The little-endian value of up to sixteen bytes.
fn le_value_u128(data: &Vec<u8>) -> (r: u128)
    requires
        data@.len() <= 16,
    ensures
        r == le_bytes_value(data@),
{
    proof {
        assert(pow256(16) == (u128::MAX as nat + 1)) by {
            reveal_with_fuel(pow256, 17);
        }
    }
    let n = data.len();
    let mut acc: u128 = 0;
    let mut i: usize = n;
    proof {
        assert(data@.skip(n as int) =~= Seq::<u8>::empty());
    }
    while i > 0
        invariant
            0 <= i <= n,
            n == data@.len(),
            n <= 16,
            acc == le_bytes_value(data@.skip(i as int)),
            pow256(16) == (u128::MAX as nat + 1),
        decreases i,
    {
        i -= 1;
        proof {
            assert(data@.skip(i as int)[0] == data@[i as int]);
            assert(data@.skip(i as int).skip(1) =~= data@.skip(i + 1 as int));
            lemma_le_bytes_bound(data@.skip(i as int));
            lemma_pow256_increases((n - i) as nat, 16);
        }
        acc = (data[i] as u128) + 256 * acc;
    }
    proof {
        assert(data@.skip(0) =~= data@);
    }
    acc
}

/// More bytes hold no smaller a range.
proof fn lemma_pow256_increases(a: nat, b: nat)
    requires
        a <= b,
    ensures
        pow256(a) <= pow256(b),
    decreases b,
{
    if a < b {
        lemma_pow256_increases(a, (b - 1) as nat);
        assert(pow256(b) == 256 * pow256((b - 1) as nat));
    }
}

/// The two's-complement reading of a value below `modulus`.
pub open spec fn spec_signed(v: nat, modulus: nat) -> int {
    if 2 * v < modulus {
        v as int
    } else {
        v as int - modulus
    }
}

/// A payload read as one number, by its exact length.
#[derive(PartialEq, Eq, Structural, Debug, Clone, Copy)]
pub enum ParsedScalar {
    U8(u8),
    I8(i8),
    U32(u32),
    I32(i32),
    U64(u64),
    I64(i64),
    U128(u128),
    I128(i128),
}

/// Reads a payload of exactly one, four, eight or sixteen bytes as one
/// little-endian number — unsigned when asked, two's-complement signed
/// otherwise (sixteen bytes are always read as an integer; one-byte unsigned
/// stays a byte). Any other length is no number.
pub fn parse_numeric_value(data: &Vec<u8>, unsigned: bool) -> (r: Option<ParsedScalar>)
    ensures
        !(data@.len() == 1 || data@.len() == 4 || data@.len() == 8 || data@.len() == 16)
            ==> r is None,
        data@.len() == 1 && unsigned ==> (r matches Some(s) && s matches ParsedScalar::U8(v) && v
            == le_bytes_value(data@)),
        data@.len() == 1 && !unsigned ==> (r matches Some(s) && s matches ParsedScalar::I8(v)
            && v == spec_signed(le_bytes_value(data@), 0x100)),
        data@.len() == 4 && unsigned ==> (r matches Some(s) && s matches ParsedScalar::U32(v) && v
            == le_bytes_value(data@)),
        data@.len() == 4 && !unsigned ==> (r matches Some(s) && s matches ParsedScalar::I32(v)
            && v == spec_signed(le_bytes_value(data@), 0x1_0000_0000)),
        data@.len() == 8 && unsigned ==> (r matches Some(s) && s matches ParsedScalar::U64(v) && v
            == le_bytes_value(data@)),
        data@.len() == 8 && !unsigned ==> (r matches Some(s) && s matches ParsedScalar::I64(v)
            && v == spec_signed(le_bytes_value(data@), 0x1_0000_0000_0000_0000)),
        data@.len() == 16 && unsigned ==> (r matches Some(s) && s matches ParsedScalar::U128(v)
            && v == le_bytes_value(data@)),
        data@.len() == 16 && !unsigned ==> (r matches Some(s) && s matches ParsedScalar::I128(v)
            && v == spec_signed(
            le_bytes_value(data@),
            u128::MAX as nat + 1,
        )),
{
    let n = data.len();
    if !(n == 1 || n == 4 || n == 8 || n == 16) {
        return None;
    }
    let acc = le_value_u128(data);
    proof {
        lemma_le_bytes_bound(data@);
        assert(pow256(1) == 0x100nat && pow256(4) == 0x1_0000_0000nat && pow256(8)
            == 0x1_0000_0000_0000_0000nat && pow256(16)
            == (u128::MAX as nat + 1)) by {
            reveal_with_fuel(pow256, 17);
        }
    }
    if n == 1 {
        let b = acc as u8;
        if unsigned {
            Some(ParsedScalar::U8(b))
        } else {
            let v: i8 = if b <= 0x7F {
                b as i8
            } else {
                ((b as i16) - 0x100i16) as i8
            };
            Some(ParsedScalar::I8(v))
        }
    } else if n == 4 {
        let u = acc as u32;
        if unsigned {
            Some(ParsedScalar::U32(u))
        } else {
            let v: i32 = if u <= 0x7FFF_FFFFu32 {
                u as i32
            } else {
                ((u as i64) - 0x1_0000_0000i64) as i32
            };
            Some(ParsedScalar::I32(v))
        }
    } else if n == 8 {
        let u = acc as u64;
        if unsigned {
            Some(ParsedScalar::U64(u))
        } else {
            let v: i64 = if u <= 0x7FFF_FFFF_FFFF_FFFFu64 {
                u as i64
            } else {
                ((u as i128) - 0x1_0000_0000_0000_0000i128) as i64
            };
            Some(ParsedScalar::I64(v))
        }
    } else {
        if unsigned {
            Some(ParsedScalar::U128(acc))
        } else {
            let v: i128 = if acc <= 0x7FFF_FFFF_FFFF_FFFF_FFFF_FFFF_FFFF_FFFFu128 {
                acc as i128
            } else {
                ((acc - 0x8000_0000_0000_0000_0000_0000_0000_0000u128) as i128) + i128::MIN
            };
            Some(ParsedScalar::I128(v))
        }
    }
}

} // verus!

verus! {

/// The title of the value view: the navigation buttons' states and the text
/// between them, in the dense form when the full form would not fit.
pub struct ConnectionTitle {
    /// Whether stepping back is possible (shown enabled).
    pub previous_enabled: bool,
    /// Whether stepping forward is possible (shown enabled).
    pub next_enabled: bool,
    /// Whether the dense form is used.
    pub dense: bool,
    /// The text between the buttons.
    pub text: String,
}

/// Builds the value view's title: stepping back is possible once two values
/// exist and the oldest is not already shown; stepping forward once two
/// exist and a historical one is shown; the dense form is used when the
/// frame cannot fit the buttons and the full text.
pub fn render_title_with_navigation_controls(
    area_width: u16,
    c: &ConnectedCharacteristic,
    historical: Option<usize>,
    history_len: usize,
) -> (r: ConnectionTitle)
    ensures
        r.previous_enabled == !(history_len < 2 || historical == Some(0usize)),
        r.next_enabled == !(history_len < 2 || historical is None),
        r.dense == (area_width < 2 || area_width - 2 < 28 + ("Characteristic "@
            + c.spec_char_name() + " / Service "@ + c.spec_service_name()).len()),
        r.dense ==> r.text@ == "Char. "@ + c.spec_char_name(),
        !r.dense ==> r.text@ == "Characteristic "@ + c.spec_char_name() + " / Service "@
            + c.spec_service_name(),
{
    let previous_enabled = !(history_len < 2 || (match historical {
        Some(i) => i == 0,
        None => false,
    }));
    let next_enabled = !(history_len < 2 || historical.is_none());
    let mut base = String::new();
    base.append("Characteristic ");
    let cn = c.char_name();
    base.append(cn.as_str());
    base.append(" / Service ");
    let sn = c.service_name();
    base.append(sn.as_str());
    let base_len = base.as_str().unicode_len();
    let dense = area_width < 2 || ((area_width - 2) as usize) < (
    if base_len <= usize::MAX - 28 {
        28 + base_len
    } else {
        usize::MAX
    });
    if dense {
        let mut text = String::new();
        text.append("Char. ");
        text.append(cn.as_str());
        ConnectionTitle { previous_enabled, next_enabled, dense, text }
    } else {
        ConnectionTitle { previous_enabled, next_enabled, dense, text: base }
    }
}

} // verus!
