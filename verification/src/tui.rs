//! The panel layer over the view controllers: which panels are visible on
//! which route, and how one key is dispatched among them.

use crate::route::Route;
use crate::Ctx;
use vstd::prelude::*;

verus! {

/// What a view controller made of one key.
#[derive(PartialEq, Eq, Structural, Debug, Clone, Copy)]
pub enum HandleKeydownResult {
    /// The key is consumed; no later panel sees it.
    Handled,
    /// The key could not be processed in the current state.
    Errored,
    /// The key may go on to the next panel.
    Continue,
}

/// A visible panel: primary panels take input, secondary ones only render.
#[derive(PartialEq, Eq, Structural, Debug)]
pub enum BlockVariant<T> {
    /// Takes input and renders highlighted.
    Primary(T),
    /// Renders dimmed and takes no input.
    Secondary(T),
}

impl<T> BlockVariant<T> {
    /// The panel inside, whichever role it has.
    pub fn into_inner(self) -> (r: T)
        ensures
            match self {
                BlockVariant::Primary(inner) => r == inner,
                BlockVariant::Secondary(inner) => r == inner,
            },
    {
        match self {
            BlockVariant::Primary(inner) => inner,
            BlockVariant::Secondary(inner) => inner,
        }
    }
}

} // verus!

verus! {

use crate::connection_view::ConnectionView;
use crate::error_popup::ErrorView;
use crate::keys::Key;
use crate::peripheral_list::PeripheralList;
use crate::peripheral_view::PeripheralView;
use crate::welcome::WelcomeBlock;

/// The fixed set of panels, dispatched by pattern match.
#[derive(PartialEq, Eq, Structural, Debug, Clone, Copy)]
pub enum PanelKind {
    PeripheralListPanel,
    PeripheralViewPanel,
    ConnectionViewPanel,
    WelcomePanel,
}

/// Whether no peripheral has been seen yet: no snapshot, or an empty one.
pub open spec fn spec_scan_empty(ctx: Ctx) -> bool {
    match ctx.latest_scan {
        None => true,
        Some(scan) => scan.peripherals@.len() == 0,
    }
}

/// The panels visible in the current state, in layout order: the welcome
/// text alone before anything was discovered; the list beside the welcome
/// text while browsing; the list and the characteristics view while
/// connecting or connected; and the value view as third panel (or instead of
/// the list, when the terminal is narrow) while watching a characteristic.
pub fn get_active_blocks(ctx: &Ctx, width: u16) -> (r: Vec<BlockVariant<PanelKind>>)
    ensures
        ctx.active_route is PeripheralList && spec_scan_empty(*ctx) ==> r@ == seq![
            BlockVariant::Primary(PanelKind::WelcomePanel),
        ],
        ctx.active_route is PeripheralList && !spec_scan_empty(*ctx) ==> r@ == seq![
            BlockVariant::Primary(PanelKind::PeripheralListPanel),
            BlockVariant::Secondary(PanelKind::WelcomePanel),
        ],
        ctx.active_route is PeripheralWaitingView ==> r@ == seq![
            BlockVariant::Primary(PanelKind::PeripheralListPanel),
            BlockVariant::Primary(PanelKind::PeripheralViewPanel),
        ],
        ctx.active_route is PeripheralConnectedView ==> r@ == seq![
            BlockVariant::Secondary(PanelKind::PeripheralListPanel),
            BlockVariant::Primary(PanelKind::PeripheralViewPanel),
        ],
        ctx.active_route is CharacteristicView && width > 200 ==> r@ == seq![
            BlockVariant::Secondary(PanelKind::PeripheralListPanel),
            BlockVariant::Primary(PanelKind::PeripheralViewPanel),
            BlockVariant::Primary(PanelKind::ConnectionViewPanel),
        ],
        ctx.active_route is CharacteristicView && width <= 200 ==> r@ == seq![
            BlockVariant::Primary(PanelKind::PeripheralViewPanel),
            BlockVariant::Primary(PanelKind::ConnectionViewPanel),
        ],
{
    let scan_empty = match &ctx.latest_scan {
        None => true,
        Some(scan) => scan.peripherals.len() == 0,
    };
    let mut r: Vec<BlockVariant<PanelKind>> = Vec::new();
    match &ctx.active_route {
        Route::PeripheralList => {
            if scan_empty {
                r.push(BlockVariant::Primary(PanelKind::WelcomePanel));
            } else {
                r.push(BlockVariant::Primary(PanelKind::PeripheralListPanel));
                r.push(BlockVariant::Secondary(PanelKind::WelcomePanel));
            }
        },
        Route::PeripheralWaitingView { .. } => {
            r.push(BlockVariant::Primary(PanelKind::PeripheralListPanel));
            r.push(BlockVariant::Primary(PanelKind::PeripheralViewPanel));
        },
        Route::PeripheralConnectedView(..) => {
            r.push(BlockVariant::Secondary(PanelKind::PeripheralListPanel));
            r.push(BlockVariant::Primary(PanelKind::PeripheralViewPanel));
        },
        Route::CharacteristicView { .. } => {
            if width > 200 {
                r.push(BlockVariant::Secondary(PanelKind::PeripheralListPanel));
                r.push(BlockVariant::Primary(PanelKind::PeripheralViewPanel));
                r.push(BlockVariant::Primary(PanelKind::ConnectionViewPanel));
            } else {
                r.push(BlockVariant::Primary(PanelKind::PeripheralViewPanel));
                r.push(BlockVariant::Primary(PanelKind::ConnectionViewPanel));
            }
        },
    }
    proof {
        assert(r@ =~= r@);
    }
    r
}

/// What one key did at the top level.
pub struct KeyOutcome {
    /// Whether the application should exit.
    pub quit: bool,
    /// Text the front end should place on the clipboard, if asked.
    pub copy_request: Option<String>,
}

/// All view controllers, dispatched to by the input loop.
pub struct App {
    pub peripheral_list: PeripheralList,
    pub peripheral_view: PeripheralView,
    pub connection_view: ConnectionView,
    pub error_view: ErrorView,
    pub welcome_screen: WelcomeBlock,
}

impl App {
    /// Routes one key at the top level: the quit keys exit at once; while an
    /// unrecovered error is pending, only its dismissal is processed and no
    /// navigation input reaches the views; otherwise the key goes to the
    /// primary panels of the current state, nearest first, until one
    /// consumes it.
    pub fn handle_key(&mut self, ctx: &mut Ctx, width: u16, key: &Key) -> (r: KeyOutcome)
        requires
            old(ctx).wf(),
        ensures
            final(ctx).wf(),
            r.quit == (*key == Key::Char('q') || *key == Key::CtrlC),
            r.quit ==> *final(ctx) == *old(ctx) && *final(self) == *old(self)
                && r.copy_request is None,
            !r.quit && old(ctx).global_error is Some ==> {
                &&& *final(self) == *old(self)
                &&& r.copy_request is None
                &&& (*key == Key::Esc || *key == Key::Enter || *key == Key::Tab || *key
                    == Key::Char(' ')) ==> (*final(ctx) == (Ctx {
                    global_error: None,
                    ..*old(ctx)
                }))
                &&& !(*key == Key::Esc || *key == Key::Enter || *key == Key::Tab || *key
                    == Key::Char(' ')) ==> *final(ctx) == *old(ctx)
            },
            !r.quit && old(ctx).global_error is None ==> final(ctx).global_error is None && final(ctx).latest_scan == old(ctx).latest_scan && final(ctx).args == old(ctx).args,
            // With no error pending, the key runs through the primary panels
            // of the current state, nearest first, until one consumes it.
            !r.quit && old(ctx).global_error is None ==> (match old(ctx).active_route {
                Route::PeripheralList => {
                    if spec_scan_empty(*old(ctx)) {
                        &&& *final(ctx) == *old(ctx)
                        &&& *final(self) == *old(self)
                        &&& r.copy_request is None
                    } else {
                        &&& crate::peripheral_list::spec_handle_input(
                            old(self).peripheral_list,
                            final(self).peripheral_list,
                            *old(ctx),
                            *final(ctx),
                            *key,
                            HandleKeydownResult::Continue,
                        )
                        &&& final(self).peripheral_view == old(self).peripheral_view
                        &&& final(self).connection_view == old(self).connection_view
                        &&& r.copy_request is None
                    }
                },
                Route::PeripheralConnectedView(..) => {
                    &&& (exists|r1: HandleKeydownResult|
                        crate::peripheral_view::spec_handle_input(
                            old(self).peripheral_view,
                            final(self).peripheral_view,
                            *old(ctx),
                            *final(ctx),
                            *key,
                            r1,
                        ))
                    &&& final(self).peripheral_list == old(self).peripheral_list
                    &&& final(self).connection_view == old(self).connection_view
                    &&& r.copy_request is None
                },
                Route::PeripheralWaitingView { .. } => {
                    &&& final(self).connection_view == old(self).connection_view
                    &&& r.copy_request is None
                    &&& (exists|mid_ctx: Ctx, r1: HandleKeydownResult|
                        #![trigger crate::peripheral_view::spec_handle_input(
                            old(self).peripheral_view,
                            final(self).peripheral_view,
                            *old(ctx),
                            mid_ctx,
                            *key,
                            r1,
                        )]
                        {
                            &&& crate::peripheral_view::spec_handle_input(
                                old(self).peripheral_view,
                                final(self).peripheral_view,
                                *old(ctx),
                                mid_ctx,
                                *key,
                                r1,
                            )
                            &&& (r1 == HandleKeydownResult::Handled ==> *final(ctx) == mid_ctx
                                && final(self).peripheral_list == old(self).peripheral_list)
                            &&& (r1 != HandleKeydownResult::Handled
                                ==> crate::peripheral_list::spec_handle_input(
                                old(self).peripheral_list,
                                final(self).peripheral_list,
                                mid_ctx,
                                *final(ctx),
                                *key,
                                HandleKeydownResult::Continue,
                            ))
                        })
                },
                Route::CharacteristicView { .. } => {
                    &&& final(self).peripheral_list == old(self).peripheral_list
                    &&& (exists|mid_ctx: Ctx, r1: HandleKeydownResult|
                        #![trigger crate::connection_view::spec_handle_input(
                            old(self).connection_view,
                            final(self).connection_view,
                            *old(ctx),
                            mid_ctx,
                            *key,
                            r1,
                            r.copy_request,
                        )]
                        {
                            &&& crate::connection_view::spec_handle_input(
                                old(self).connection_view,
                                final(self).connection_view,
                                *old(ctx),
                                mid_ctx,
                                *key,
                                r1,
                                r.copy_request,
                            )
                            &&& (r1 == HandleKeydownResult::Handled ==> *final(ctx) == mid_ctx
                                && final(self).peripheral_view == old(self).peripheral_view)
                            &&& (r1 != HandleKeydownResult::Handled ==> (exists|
                                r2: HandleKeydownResult,
                            |
                                crate::peripheral_view::spec_handle_input(
                                    old(self).peripheral_view,
                                    final(self).peripheral_view,
                                    mid_ctx,
                                    *final(ctx),
                                    *key,
                                    r2,
                                )))
                        })
                },
            }),
    {
        match key {
            Key::Char('q') | Key::CtrlC => {
                return KeyOutcome { quit: true, copy_request: None };
            },
            _ => {},
        }
        let has_error = match &ctx.global_error {
            Some(_) => true,
            None => false,
        };
        if has_error {
            self.error_view.handle_input(ctx, key);
            return KeyOutcome { quit: false, copy_request: None };
        }
        let route_kind: u8 = match &ctx.active_route {
            Route::PeripheralList => 0,
            Route::PeripheralWaitingView { .. } => 1,
            Route::PeripheralConnectedView(..) => 2,
            Route::CharacteristicView { .. } => 3,
        };
        let scan_empty = match &ctx.latest_scan {
            None => true,
            Some(scan) => scan.peripherals.len() == 0,
        };
        let mut copy_request: Option<String> = None;
        if route_kind == 0 {
            if scan_empty {
                self.welcome_screen.handle_input(key);
            } else {
                self.peripheral_list.handle_input(ctx, key);
            }
        } else if route_kind == 1 {
            let handled = self.peripheral_view.handle_input(ctx, key);
            let ghost mid_ctx = *ctx;
            if !(handled == HandleKeydownResult::Handled) {
                self.peripheral_list.handle_input(ctx, key);
            }
            proof {
                assert(crate::peripheral_view::spec_handle_input(
                    old(self).peripheral_view,
                    self.peripheral_view,
                    *old(ctx),
                    mid_ctx,
                    *key,
                    handled,
                ));
            }
        } else if route_kind == 2 {
            self.peripheral_view.handle_input(ctx, key);
        } else {
            let (handled, copy) = self.connection_view.handle_input(ctx, key);
            let ghost mid_ctx = *ctx;
            copy_request = copy;
            if !(handled == HandleKeydownResult::Handled) {
                self.peripheral_view.handle_input(ctx, key);
            }
            proof {
                assert(crate::connection_view::spec_handle_input(
                    old(self).connection_view,
                    self.connection_view,
                    *old(ctx),
                    mid_ctx,
                    *key,
                    handled,
                    copy_request,
                ));
            }
        }
        KeyOutcome { quit: false, copy_request }
    }
}

} // verus!
