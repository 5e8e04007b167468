//! The error popup: the last unrecovered error must be dismissed by a
//! dedicated input before normal navigation input is processed again.

use crate::error::Error;
use crate::keys::Key;
use crate::tui::HandleKeydownResult;
use crate::Ctx;
use vstd::prelude::*;

verus! {

/// A rectangle of the terminal, in cells.
#[derive(PartialEq, Eq, Structural, Debug, Clone, Copy)]
pub struct Rect {
    pub x: u16,
    pub y: u16,
    pub width: u16,
    pub height: u16,
}

/// The centered box covering the given percentages of a rectangle.
pub fn centered_rect(percent_x: u16, percent_y: u16, r: Rect) -> (c: Rect)
    requires
        percent_x <= 100,
        percent_y <= 100,
        r.x + r.width <= u16::MAX,
        r.y + r.height <= u16::MAX,
    ensures
        c.x == r.x + (r.width * (((100 - percent_x) / 2) as int)) / 100,
        c.y == r.y + (r.height * (((100 - percent_y) / 2) as int)) / 100,
        c.width == (r.width * percent_x) / 100,
        c.height == (r.height * percent_y) / 100,
{
    let side_x: u32 = ((100 - percent_x) / 2) as u32;
    let side_y: u32 = ((100 - percent_y) / 2) as u32;
    proof {
        assert((r.width as u32) * side_x <= (r.width as u32) * 100) by (nonlinear_arith)
            requires
                side_x <= 50,
        ;
        assert((r.height as u32) * side_y <= (r.height as u32) * 100) by (nonlinear_arith)
            requires
                side_y <= 50,
        ;
        assert((r.width as u32) * (percent_x as u32) <= (r.width as u32) * 100) by (nonlinear_arith)
            requires
                percent_x <= 100,
        ;
        assert((r.height as u32) * (percent_y as u32) <= (r.height as u32) * 100)
            by (nonlinear_arith)
            requires
                percent_y <= 100,
        ;
    }
    let off_x = ((r.width as u32) * side_x / 100) as u16;
    let off_y = ((r.height as u32) * side_y / 100) as u16;
    let width = ((r.width as u32) * (percent_x as u32) / 100) as u16;
    let height = ((r.height as u32) * (percent_y as u32) / 100) as u16;
    Rect { x: r.x + off_x, y: r.y + off_y, width, height }
}

/// The popup that shows the last unrecovered error until dismissed.
pub struct ErrorView {}

impl ErrorView {
    /// A fresh popup controller.
    pub fn new() -> (r: Self) {
        ErrorView {  }
    }

    /// Routes one key: with no error pending nothing can be handled; with
    /// one pending, escape, enter, tab or space dismiss it, and every other
    /// key passes on — so the error must be dismissed before normal input is
    /// processed again.
    pub fn handle_input(&self, ctx: &mut Ctx, key: &Key) -> (r: HandleKeydownResult)
        ensures
            old(ctx).global_error is None ==> r == HandleKeydownResult::Errored && *final(ctx)
                == *old(ctx),
            old(ctx).global_error is Some && (*key == Key::Esc || *key == Key::Enter || *key
                == Key::Tab || *key == Key::Char(' ')) ==> r == HandleKeydownResult::Handled && (
            *final(ctx) == (Ctx { global_error: None, ..*old(ctx) })),
            old(ctx).global_error is Some && !(*key == Key::Esc || *key == Key::Enter || *key
                == Key::Tab || *key == Key::Char(' ')) ==> r == HandleKeydownResult::Continue
                && *final(ctx) == *old(ctx),
    {
        let has_error = match &ctx.global_error {
            Some(_) => true,
            None => false,
        };
        if !has_error {
            return HandleKeydownResult::Errored;
        }
        match key {
            Key::Esc | Key::Enter | Key::Tab | Key::Char(' ') => {
                ctx.global_error = None;
                HandleKeydownResult::Handled
            },
            _ => HandleKeydownResult::Continue,
        }
    }

    /// The text the popup shows, when an error is pending.
    pub fn popup_text(&self, ctx: &Ctx) -> (r: Option<String>)
        ensures
            match ctx.global_error {
                Some(e) => r matches Some(t) && t@ == e.spec_message(),
                None => r is None,
            },
    {
        match &ctx.global_error {
            Some(e) => Some(e.message()),
            None => None,
        }
    }
}

} // verus!
