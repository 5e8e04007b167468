//! The connected-peripheral view controller: filters the characteristics of
//! the connected peripheral, keeps the highlighted one stable, descends into
//! a characteristic's value view, and disconnects on request.

use crate::bluetooth::cc_equiv;
use crate::bluetooth::cp_equiv;
use crate::bluetooth::ConnectedCharacteristic;
use crate::bluetooth::ConnectedPeripheral;
use crate::cli_args::Args;
use crate::ids::uuid_str_of;
use crate::ids::uuid_string;
use crate::keys::Key;
use crate::route::spec_side_effect_kind;
use crate::route::AtomicOptionalIndex;
use crate::route::Route;
use crate::text::spec_contains;
use crate::text::str_contains;
use crate::tui::HandleKeydownResult;
use crate::ui::list::stabilized_index;
use crate::ui::list::FilteredEntry;
use crate::ui::list::HandleInputResult;
use crate::ui::list::StableIndexList;
use crate::ui::list::StableListState;
use crate::ui::search_input::handle_search_input;
use crate::ui::search_input::maybe_update_search_regexp;
use crate::ui::search_input::regex_is_match;
use crate::ui::search_input::regex_matches;
use crate::ui::search_input::regex_pattern;
use crate::ui::search_input::ShouldUpdate;
use crate::peripheral_list::regex_update_ok;
use crate::peripheral_list::spec_edited_search;
use crate::Ctx;
use vstd::prelude::*;
use vstd::string::StringExecFns;

verus! {

/// Which input area of the view the next key goes to.
#[derive(PartialEq, Eq, Structural, Debug, Clone, Copy)]
pub enum Focus {
    /// The filter text field.
    Search,
    /// The list of characteristics.
    List,
}

/// The characteristics the current route exposes for browsing.
pub open spec fn spec_route_chars(route: Route) -> Seq<ConnectedCharacteristic> {
    match route {
        Route::PeripheralConnectedView(cp) => cp.characteristics@,
        Route::CharacteristicView { peripheral, .. } => peripheral.characteristics@,
        _ => Seq::empty(),
    }
}

/// The controller of the characteristics view.
pub struct PeripheralView {
    /// The identity-stable selection over the filtered characteristics.
    pub list_state: StableListState,
    /// Which input area the next key goes to.
    pub focus: Focus,
    /// The filter text being typed, if any.
    pub search: Option<String>,
    /// The compiled filter expression, recompiled when the text changes.
    pub search_regex: Option<regex::Regex>,
    /// Whether the automatic descent into a single filter match already ran.
    pub first_match_done: bool,
}

impl PeripheralView {
    /// Whether a characteristic stays visible under the current filter: a
    /// compiled expression must match its id, its service's id or one of the
    /// well-known names; plain text must occur in one of them; with no
    /// filter everything stays.
    pub open spec fn spec_filter_passes(&self, c: ConnectedCharacteristic) -> bool {
        if self.search_regex is Some {
            ||| regex_matches(regex_pattern(self.search_regex->0), uuid_str_of(c.uuid))
            ||| regex_matches(regex_pattern(self.search_regex->0), uuid_str_of(c.service_uuid))
            ||| (match c.standard_gatt_char_name {
                Some(n) => regex_matches(regex_pattern(self.search_regex->0), n@),
                None => false,
            })
            ||| (match c.standard_gatt_service_name {
                Some(n) => regex_matches(regex_pattern(self.search_regex->0), n@),
                None => false,
            })
        } else if self.search is Some {
            ||| spec_contains(uuid_str_of(c.uuid), self.search->0@)
            ||| spec_contains(uuid_str_of(c.service_uuid), self.search->0@)
            ||| (match c.standard_gatt_char_name {
                Some(n) => spec_contains(n@, self.search->0@),
                None => false,
            })
            ||| (match c.standard_gatt_service_name {
                Some(n) => spec_contains(n@, self.search->0@),
                None => false,
            })
        } else {
            true
        }
    }

    /// Decides whether a characteristic stays visible under the current
    /// filter.
    pub fn filter_characteristic(&self, c: &ConnectedCharacteristic) -> (r: bool)
        ensures
            r == self.spec_filter_passes(*c),
    {
        let characteristic_name = uuid_string(c.uuid);
        let service_name = uuid_string(c.service_uuid);
        if let Some(re) = &self.search_regex {
            if regex_is_match(re, characteristic_name.as_str()) {
                return true;
            }
            if regex_is_match(re, service_name.as_str()) {
                return true;
            }
            if let Some(n) = &c.standard_gatt_char_name {
                if regex_is_match(re, n.as_str()) {
                    return true;
                }
            }
            if let Some(n) = &c.standard_gatt_service_name {
                if regex_is_match(re, n.as_str()) {
                    return true;
                }
            }
            return false;
        }
        if let Some(search) = &self.search {
            if str_contains(characteristic_name.as_str(), search.as_str()) {
                return true;
            }
            if str_contains(service_name.as_str(), search.as_str()) {
                return true;
            }
            if let Some(n) = &c.standard_gatt_char_name {
                if str_contains(n.as_str(), search.as_str()) {
                    return true;
                }
            }
            if let Some(n) = &c.standard_gatt_service_name {
                if str_contains(n.as_str(), search.as_str()) {
                    return true;
                }
            }
            return false;
        }
        true
    }

    /// The filtered characteristics: the positions that pass the filter, in
    /// order, each with the characteristic's identity.
    pub open spec fn spec_filtered(&self, s: Seq<ConnectedCharacteristic>) -> Seq<FilteredEntry>
        decreases s.len(),
    {
        if s.len() == 0 {
            Seq::empty()
        } else {
            self.spec_filtered(s.drop_last()) + (if self.spec_filter_passes(s.last()) {
                seq![FilteredEntry { index: (s.len() - 1) as usize, id: s.last().uuid }]
            } else {
                seq![]
            })
        }
    }

    /// Every filtered entry points back at a characteristic that passes the
    /// filter and carries the entry's identity.
    pub proof fn lemma_filtered_valid(&self, s: Seq<ConnectedCharacteristic>)
        requires
            s.len() <= usize::MAX,
        ensures
            forall|k: int|
                0 <= k < self.spec_filtered(s).len() ==> {
                    let e = #[trigger] self.spec_filtered(s)[k];
                    &&& e.index < s.len()
                    &&& s[e.index as int].uuid == e.id
                    &&& self.spec_filter_passes(s[e.index as int])
                },
        decreases s.len(),
    {
        if s.len() > 0 {
            self.lemma_filtered_valid(s.drop_last());
            assert(forall|j: int| 0 <= j < s.len() - 1 ==> s.drop_last()[j] == s[j]);
        }
    }

    /// Builds the filtered list from the route's characteristics.
    pub fn build_filtered(&self, chars: &Vec<ConnectedCharacteristic>) -> (r: StableIndexList<
        FilteredEntry,
    >)
        ensures
            r@ == self.spec_filtered(chars@),
    {
        let mut r: StableIndexList<FilteredEntry> = StableIndexList::new();
        let n = chars.len();
        let mut i: usize = 0;
        proof {
            assert(chars@.take(0) =~= Seq::<ConnectedCharacteristic>::empty());
        }
        while i < n
            invariant
                0 <= i <= n,
                n == chars@.len(),
                r@ == self.spec_filtered(chars@.take(i as int)),
            decreases n - i,
        {
            let ghost t = chars@.take(i + 1 as int);
            proof {
                assert(t.drop_last() =~= chars@.take(i as int));
                assert(t.last() == chars@[i as int]);
            }
            if self.filter_characteristic(&chars[i]) {
                r.push(FilteredEntry { index: i, id: chars[i].uuid });
            }
            i += 1;
        }
        proof {
            assert(chars@.take(n as int) =~= chars@);
        }
        r
    }

    /// The controller at startup: the configured characteristic filter as
    /// initial search text, compiled if it is usable, focus on the list,
    /// nothing selected.
    pub fn new(args: &Args) -> (r: Self)
        ensures
            crate::bluetooth::option_str_view(r.search) == (match args.characteristic {
                Some(c) => Some(c@),
                None => None::<Seq<char>>,
            }),
            r.focus is List,
            r.first_match_done == false,
            r.list_state.spec_selected_id() is None,
            r.list_state.unstable_state is None,
            regex_update_ok(
                r.search_regex,
                None,
                (match args.characteristic {
                    Some(c) => Some(c@),
                    None => None::<Seq<char>>,
                }),
                None,
                args.regex_flags@,
            ),
    {
        let initial_search: Option<String> = match &args.characteristic {
            Some(c) => Some(c.clone()),
            None => None,
        };
        let search_regex = match maybe_update_search_regexp(
            initial_search.as_ref(),
            None,
            &args.regex_flags,
        ) {
            ShouldUpdate::NoUpdate => None,
            ShouldUpdate::Update(regex) => regex,
        };
        PeripheralView {
            search_regex,
            search: initial_search,
            focus: Focus::List,
            list_state: StableListState::default(),
            first_match_done: false,
        }
    }
}

} // verus!

verus! {

use crate::route::spec_navigated;

/// The connected peripheral the current route shows, where it shows one.
pub open spec fn spec_route_cp(route: Route) -> ConnectedPeripheral {
    match route {
        Route::PeripheralConnectedView(cp) => cp,
        Route::CharacteristicView { peripheral, .. } => peripheral,
        _ => arbitrary(),
    }
}

/// Everything one key does to the view and the shared state, clause for
/// clause: the postcondition of `PeripheralView::handle_input`, stated over
/// the states before and after the call.
pub open spec fn spec_handle_input(
    pre: PeripheralView,
    post: PeripheralView,
    pre_ctx: Ctx,
    post_ctx: Ctx,
    key: Key,
    r: HandleKeydownResult,
) -> bool {
    &&& (post_ctx.wf())
    &&& (r == HandleKeydownResult::Continue || r == HandleKeydownResult::Handled)
    &&& (post_ctx.latest_scan == pre_ctx.latest_scan)
    &&& (post_ctx.args == pre_ctx.args)
    &&& (post_ctx.global_error == pre_ctx.global_error)
    &&& (post_ctx.request_scan_restart == pre_ctx.request_scan_restart)
    &&& (post_ctx.general_options == pre_ctx.general_options)
    &&& (post.first_match_done == pre.first_match_done)
    &&& (r == HandleKeydownResult::Continue ==> regex_update_ok(
                post.search_regex,
                pre.search_regex,
                crate::bluetooth::option_str_view(post.search),
                crate::bluetooth::option_str_view(pre.search),
                pre_ctx.args.regex_flags@,
            ))
    &&& (r == HandleKeydownResult::Handled ==> post.search_regex == pre.search_regex && post.search == pre.search)
    &&& (pre_ctx.active_route is PeripheralList ==> r == HandleKeydownResult::Continue
                && post_ctx == pre_ctx && post.list_state == pre.list_state
                && post.focus == pre.focus && post.search == pre.search)
    &&& (pre_ctx.active_route is PeripheralWaitingView ==> {
                &&& r == HandleKeydownResult::Continue
                &&& post.list_state == pre.list_state
                &&& post.focus == pre.focus
                &&& post.search == pre.search
                &&& (key == Key::Left || key == Key::Char('d')) ==> post_ctx.active_route is PeripheralList && spec_navigated(pre_ctx, post_ctx)
                &&& !(key == Key::Left || key == Key::Char('d')) ==> post_ctx == pre_ctx
            })
    &&& ((pre_ctx.active_route is PeripheralConnectedView || pre_ctx.active_route is CharacteristicView) && pre.focus is Search ==> {
                let filtered = pre.spec_filtered(spec_route_chars(pre_ctx.active_route));
                &&& r == HandleKeydownResult::Continue
                &&& post_ctx == pre_ctx
                &&& crate::bluetooth::option_str_view(post.search) == spec_edited_search(
                    crate::bluetooth::option_str_view(pre.search),
                    key,
                )
                &&& (key == Key::Enter || key == Key::Down) ==> post.focus is List && (
                if filtered.len() > 0 {
                    post.list_state.unstable_state == Some(0usize) && post.list_state.spec_selected_id() == Some(filtered[0].id)
                } else {
                    post.list_state.unstable_state is None && post.list_state.spec_selected_id() is None
                })
                &&& (key == Key::Esc || key == Key::Tab) ==> post.focus is List && post.list_state.unstable_state is None && post.list_state.spec_selected_id() is None
                &&& !(key == Key::Enter || key == Key::Down || key == Key::Esc || key
                    == Key::Tab) ==> post.focus is Search && post.list_state.spec_selected_id() == pre.list_state.spec_selected_id() && post.list_state.unstable_state == stabilized_index(
                    filtered,
                    pre.list_state.spec_selected_id(),
                )
            })
    &&& ((pre_ctx.active_route is PeripheralConnectedView || pre_ctx.active_route is CharacteristicView) && pre.focus is List ==> {
                let chars = spec_route_chars(pre_ctx.active_route);
                let filtered = pre.spec_filtered(chars);
                let stab = stabilized_index(filtered, pre.list_state.spec_selected_id());
                &&& post.search == pre.search
                &&& (key == Key::Left || key == Key::Char('d')) ==> {
                    &&& r == HandleKeydownResult::Handled
                    &&& post_ctx.active_route is PeripheralList
                    &&& spec_navigated(pre_ctx, post_ctx)
                    &&& post.focus is List
                    &&& post.list_state.unstable_state == stab
                    &&& post.list_state.spec_selected_id() == pre.list_state.spec_selected_id()
                }
                &&& (key == Key::Char('/') || key == Key::Tab) ==> r
                    == HandleKeydownResult::Continue && post_ctx == pre_ctx && post.focus is Search && post.list_state.unstable_state is None && post.list_state.spec_selected_id() is None
                &&& (key == Key::Right || key == Key::Char('l') || key == Key::Enter) ==> {
                    &&& r == HandleKeydownResult::Continue
                    &&& post.focus is List
                    &&& post.list_state.unstable_state == stab
                    &&& post.list_state.spec_selected_id() == pre.list_state.spec_selected_id()
                    &&& (match stab {
                        Some(i) => {
                            &&& post_ctx.active_route matches Route::CharacteristicView {
                                peripheral: fp,
                                characteristic: fc,
                                historical_view_index: fh,
                                history: fhist,
                            } && cp_equiv(fp, spec_route_cp(pre_ctx.active_route)) && cc_equiv(
                                fc,
                                chars[filtered[i as int].index as int],
                            ) && fh.spec_read() is None && fhist@.len() == 0
                            &&& spec_navigated(pre_ctx, post_ctx)
                        },
                        None => post_ctx == pre_ctx,
                    })
                }
                &&& (key == Key::Down || key == Key::Char('j')) ==> r
                    == HandleKeydownResult::Continue && post_ctx == pre_ctx && post.focus is List && (if filtered.len() == 0 {
                    post.list_state.unstable_state == stab && post.list_state.spec_selected_id() == pre.list_state.spec_selected_id()
                } else {
                    post.list_state.unstable_state == Some(
                        crate::ui::list::wrap_next(filtered.len(), stab) as usize,
                    ) && post.list_state.spec_selected_id() == Some(
                        filtered[crate::ui::list::wrap_next(filtered.len(), stab)].id,
                    )
                })
                &&& (key == Key::Up || key == Key::Char('k')) ==> r
                    == HandleKeydownResult::Continue && post_ctx == pre_ctx && post.focus is List && (if filtered.len() == 0 {
                    post.list_state.unstable_state == stab && post.list_state.spec_selected_id() == pre.list_state.spec_selected_id()
                } else {
                    post.list_state.unstable_state == Some(
                        crate::ui::list::wrap_previous(filtered.len(), stab) as usize,
                    ) && post.list_state.spec_selected_id() == Some(
                        filtered[crate::ui::list::wrap_previous(filtered.len(), stab)].id,
                    )
                })
                &&& key == Key::Char('h') ==> r == HandleKeydownResult::Continue && post_ctx
                    == pre_ctx && post.focus is List && post.list_state.unstable_state is None && post.list_state.spec_selected_id() is None
                &&& !(key == Key::Left || key == Key::Char('d') || key == Key::Char('/') || key
                    == Key::Tab || key == Key::Right || key == Key::Char('l') || key == Key::Enter
                    || key == Key::Down || key == Key::Char('j') || key == Key::Up || key
                    == Key::Char('k') || key == Key::Char('h')) ==> r
                    == HandleKeydownResult::Continue && post_ctx == pre_ctx && post.focus is List
                    && post.list_state.unstable_state == stab
                    && post.list_state.spec_selected_id() == pre.list_state.spec_selected_id()
            })
}

impl PeripheralView {
    /// Routes one key through the view. While a connection is in progress,
    /// left or `d` abandons it by navigating back to the list. On a
    /// connected peripheral the key edits the filter, moves the stable
    /// selection, descends into the highlighted characteristic's value view
    /// (with a fresh, empty history), or disconnects. The filter expression
    /// is recompiled only when the text changed.
    pub fn handle_input(&mut self, ctx: &mut Ctx, key: &Key) -> (r: HandleKeydownResult)
        requires
            old(ctx).wf(),
        ensures
            spec_handle_input(*old(self), *final(self), *old(ctx), *final(ctx), *key, r),
    {
        let last_search: Option<String> = match &self.search {
            Some(s) => Some(s.clone()),
            None => None,
        };
        let is_waiting = match &ctx.active_route {
            Route::PeripheralWaitingView { .. } => true,
            _ => false,
        };
        let is_connected_like = match &ctx.active_route {
            Route::PeripheralConnectedView(_) => true,
            Route::CharacteristicView { .. } => true,
            _ => false,
        };
        if is_waiting {
            match key {
                Key::Left | Key::Char('d') => {
                    Route::PeripheralList.navigate(ctx);
                },
                _ => {},
            }
        } else if is_connected_like {
            let filtered = match &ctx.active_route {
                Route::PeripheralConnectedView(cp) => self.build_filtered(&cp.characteristics),
                Route::CharacteristicView { peripheral, .. } => self.build_filtered(
                    &peripheral.characteristics,
                ),
                _ => StableIndexList::new(),
            };
            self.list_state.stabilize_selected_index(&filtered);
            match self.focus {
                Focus::Search => {
                    handle_search_input(&mut self.search, key);
                    match key {
                        Key::Enter | Key::Down => {
                            if !filtered.is_empty() {
                                self.list_state.select(&filtered, Some(0));
                            } else {
                                self.list_state.list_unselect(&filtered);
                            }
                            self.focus = Focus::List;
                        },
                        Key::Esc | Key::Tab => {
                            self.list_state.list_unselect(&filtered);
                            self.focus = Focus::List;
                        },
                        _ => {},
                    }
                },
                Focus::List => {
                    match key {
                        Key::Char('/') | Key::Tab => {
                            self.focus = Focus::Search;
                            self.list_state.list_unselect(&filtered);
                        },
                        Key::Left | Key::Char('d') => {
                            Route::PeripheralList.navigate(ctx);
                            return HandleKeydownResult::Handled;
                        },
                        _ => {},
                    }
                    proof {
                        match old(self).list_state.spec_selected_id() {
                            Some(id) => {
                                crate::ui::list::lemma_first_index_with_id(filtered@, id);
                            },
                            None => {},
                        }
                    }
                    let selected_entry: Option<FilteredEntry> = match self.list_state.handle_key_input(
                        &filtered,
                        key,
                    ) {
                        HandleInputResult::Selected(e) => Some(*e),
                        HandleInputResult::Unhandled => None,
                    };
                    if let Some(entry) = selected_entry {
                        let mut target: Option<(ConnectedPeripheral, ConnectedCharacteristic)> =
                            None;
                        match &ctx.active_route {
                            Route::PeripheralConnectedView(cp) => {
                                let n = cp.characteristics.len();
                                proof {
                                    old(self).lemma_filtered_valid(cp.characteristics@);
                                }
                                if entry.index < n {
                                    target = Some(
                                        (cp.clone(), cp.characteristics[entry.index].clone()),
                                    );
                                }
                            },
                            Route::CharacteristicView { peripheral, .. } => {
                                let n = peripheral.characteristics.len();
                                proof {
                                    old(self).lemma_filtered_valid(peripheral.characteristics@);
                                }
                                if entry.index < n {
                                    target = Some(
                                        (
                                            peripheral.clone(),
                                            peripheral.characteristics[entry.index].clone(),
                                        ),
                                    );
                                }
                            },
                            _ => {},
                        }
                        if let Some((peripheral, characteristic)) = target {
                            Route::CharacteristicView {
                                peripheral,
                                characteristic,
                                historical_view_index: AtomicOptionalIndex::default(),
                                history: Vec::new(),
                            }.navigate(ctx);
                        }
                    }
                },
            }
        }
        let update = maybe_update_search_regexp(
            self.search.as_ref(),
            last_search.as_ref(),
            &ctx.args.regex_flags,
        );
        if let ShouldUpdate::Update(new_regex) = update {
            self.search_regex = new_regex;
        }
        HandleKeydownResult::Continue
    }
}

} // verus!

verus! {

impl PeripheralView {
    /// The automatic descent: the first time exactly one characteristic is
    /// visible, it is selected and its value view opens, once. Run from the
    /// update path, never from rendering.
    pub fn maybe_auto_navigate(&mut self, ctx: &mut Ctx)
        requires
            old(ctx).wf(),
        ensures
            final(ctx).wf(),
            final(self).search == old(self).search,
            final(self).search_regex == old(self).search_regex,
            final(self).focus == old(self).focus,
            final(ctx).latest_scan == old(ctx).latest_scan,
            final(ctx).args == old(ctx).args,
            final(ctx).global_error == old(ctx).global_error,
            final(ctx).request_scan_restart == old(ctx).request_scan_restart,
            final(ctx).general_options == old(ctx).general_options,
            !(old(ctx).active_route is PeripheralConnectedView || old(
                ctx,
            ).active_route is CharacteristicView) ==> *final(ctx) == *old(ctx) && *final(self)
                == *old(self),
            (old(ctx).active_route is PeripheralConnectedView || old(
                ctx,
            ).active_route is CharacteristicView) ==> {
                let chars = spec_route_chars(old(ctx).active_route);
                let filtered = old(self).spec_filtered(chars);
                &&& (!old(self).first_match_done && filtered.len() == 1) ==> {
                    &&& final(self).first_match_done == true
                    &&& final(self).list_state.unstable_state == Some(0usize)
                    &&& final(self).list_state.spec_selected_id() == Some(filtered[0].id)
                    &&& final(ctx).active_route matches Route::CharacteristicView {
                        peripheral: fp,
                        characteristic: fc,
                        historical_view_index: fh,
                        history: fhist,
                    } && cp_equiv(fp, spec_route_cp(old(ctx).active_route)) && cc_equiv(
                        fc,
                        chars[filtered[0].index as int],
                    ) && fh.spec_read() is None && fhist@.len() == 0
                    &&& spec_navigated(*old(ctx), *final(ctx))
                }
                &&& (old(self).first_match_done || filtered.len() != 1) ==> *final(ctx) == *old(
                    ctx,
                ) && *final(self) == *old(self)
            },
    {
        if self.first_match_done {
            return ;
        }
        let is_connected_like = match &ctx.active_route {
            Route::PeripheralConnectedView(_) => true,
            Route::CharacteristicView { .. } => true,
            _ => false,
        };
        if !is_connected_like {
            return ;
        }
        let filtered = match &ctx.active_route {
            Route::PeripheralConnectedView(cp) => self.build_filtered(&cp.characteristics),
            Route::CharacteristicView { peripheral, .. } => self.build_filtered(
                &peripheral.characteristics,
            ),
            _ => StableIndexList::new(),
        };
        if filtered.len() == 1 {
            self.list_state.select(&filtered, Some(0));
            let entry: FilteredEntry = match filtered.get(0) {
                Some(e) => *e,
                None => FilteredEntry { index: 0, id: 0 },
            };
            let mut target: Option<(ConnectedPeripheral, ConnectedCharacteristic)> = None;
            match &ctx.active_route {
                Route::PeripheralConnectedView(cp) => {
                    let n = cp.characteristics.len();
                    proof {
                        old(self).lemma_filtered_valid(cp.characteristics@);
                    }
                    if entry.index < n {
                        target = Some((cp.clone(), cp.characteristics[entry.index].clone()));
                    }
                },
                Route::CharacteristicView { peripheral, .. } => {
                    let n = peripheral.characteristics.len();
                    proof {
                        old(self).lemma_filtered_valid(peripheral.characteristics@);
                    }
                    if entry.index < n {
                        target = Some(
                            (peripheral.clone(), peripheral.characteristics[entry.index].clone()),
                        );
                    }
                },
                _ => {},
            }
            if let Some((peripheral, characteristic)) = target {
                Route::CharacteristicView {
                    peripheral,
                    characteristic,
                    historical_view_index: AtomicOptionalIndex::default(),
                    history: Vec::new(),
                }.navigate(ctx);
            }
            self.first_match_done = true;
        }
    }
}

} // verus!
