//! The peripheral-list view controller: filters the live snapshot, keeps the
//! highlighted peripheral stable across refreshes, and starts a connection
//! when one is chosen.

use crate::bluetooth::hp_equiv;
use crate::bluetooth::option_str_view;
use crate::bluetooth::HandledPeripheral;
use crate::cli_args::Args;
use crate::cli_args::GeneralSort;
use crate::keys::Key;
use crate::route::Route;
use crate::route::SideEffectKind;
use crate::route::TaskState;
use crate::text::spec_contains;
use crate::text::str_contains;
use crate::tui::HandleKeydownResult;
use crate::ui::list::stabilized_index;
use crate::ui::list::FilteredEntry;
use crate::ui::list::HandleInputResult;
use crate::ui::list::StableIndexList;
use crate::ui::list::StableListState;
use crate::ui::search_input::handle_search_input;
use crate::ui::search_input::maybe_update_search_regexp;
use crate::ui::search_input::regex_matches;
use crate::ui::search_input::regex_ok;
use crate::ui::search_input::regex_pattern;
use crate::ui::search_input::ShouldUpdate;
use crate::Ctx;
use vstd::prelude::*;

verus! {

/// Which input area of the view the next key goes to.
#[derive(PartialEq, Eq, Structural, Debug, Clone, Copy)]
pub enum Focus {
    /// The filter text field.
    Search,
    /// The list itself.
    List,
}

/// What one key does to the search text, at the level of characters.
pub open spec fn spec_edited_search(cur: Option<Seq<char>>, key: Key) -> Option<Seq<char>> {
    match key {
        Key::Char(c) => match cur {
            Some(s) => Some(s.push(c)),
            None => Some(seq![c]),
        },
        Key::Backspace => match cur {
            Some(s) => Some(
                if s.len() > 0 {
                    s.drop_last()
                } else {
                    s
                },
            ),
            None => None,
        },
        _ => cur,
    }
}

/// The controller of the peripheral list.
pub struct PeripheralList {
    /// The identity-stable selection over the filtered list.
    pub list_state: StableListState,
    /// The filter text being typed, if any.
    pub search: Option<String>,
    /// The compiled filter expression, recompiled when the text changes.
    pub search_regex: Option<regex::Regex>,
    /// Which input area the next key goes to.
    pub focus: Focus,
    /// Whether peripherals without an advertised name are hidden.
    pub to_remove_unknowns: bool,
    /// Whether the automatic descent into a single filter match already ran.
    pub first_match_done: bool,
}

impl PeripheralList {
    /// Whether a peripheral stays visible under the current filter: hidden
    /// unknowns drop out, a compiled expression must match the name or one
    /// advertised service name, plain text must occur in one of them, and
    /// with no filter everything stays.
    pub open spec fn spec_filter_passes(&self, p: HandledPeripheral) -> bool {
        if self.to_remove_unknowns && p.name_unset {
            false
        } else if self.search_regex is Some {
            regex_matches(regex_pattern(self.search_regex->0), p.name@) || (exists|k: int|
                0 <= k < p.services_names@.len() && regex_matches(
                    regex_pattern(self.search_regex->0),
                    p.services_names@[k]@,
                ))
        } else if self.search is Some {
            spec_contains(p.name@, self.search->0@) || (exists|k: int|
                0 <= k < p.services_names@.len() && spec_contains(
                    p.services_names@[k]@,
                    self.search->0@,
                ))
        } else {
            true
        }
    }

    /// Decides whether a peripheral stays visible under the current filter.
    pub fn filter_peripherals(&self, p: &HandledPeripheral) -> (r: bool)
        ensures
            r == self.spec_filter_passes(*p),
    {
        if self.to_remove_unknowns && p.name_unset {
            return false;
        }
        if let Some(re) = &self.search_regex {
            if crate::ui::search_input::regex_is_match(re, p.name.as_str()) {
                return true;
            }
            let n = p.services_names.len();
            let mut k: usize = 0;
            while k < n
                invariant
                    0 <= k <= n,
                    n == p.services_names@.len(),
                    !(self.to_remove_unknowns && p.name_unset),
                    self.search_regex matches Some(r2) && regex_pattern(r2) == regex_pattern(*re),
                    forall|j: int|
                        0 <= j < k ==> !regex_matches(
                            regex_pattern(*re),
                            p.services_names@[j]@,
                        ),
                decreases n - k,
            {
                if crate::ui::search_input::regex_is_match(re, p.services_names[k].as_str()) {
                    proof {
                        assert(regex_matches(regex_pattern(*re), p.services_names@[k as int]@));
                    }
                    return true;
                }
                k += 1;
            }
            return false;
        }
        if let Some(search) = &self.search {
            if str_contains(p.name.as_str(), search.as_str()) {
                return true;
            }
            let n = p.services_names.len();
            let mut k: usize = 0;
            while k < n
                invariant
                    0 <= k <= n,
                    n == p.services_names@.len(),
                    !(self.to_remove_unknowns && p.name_unset),
                    self.search_regex is None,
                    self.search matches Some(s2) && s2@ == search@,
                    forall|j: int| 0 <= j < k ==> !spec_contains(p.services_names@[j]@, search@),
                decreases n - k,
            {
                if str_contains(p.services_names[k].as_str(), search.as_str()) {
                    proof {
                        assert(spec_contains(p.services_names@[k as int]@, search@));
                    }
                    return true;
                }
                k += 1;
            }
            return false;
        }
        true
    }

    /// The filtered list over a snapshot: the positions that pass the
    /// filter, in snapshot order, each with its identity.
    pub open spec fn spec_filtered(&self, s: Seq<HandledPeripheral>) -> Seq<FilteredEntry>
        decreases s.len(),
    {
        if s.len() == 0 {
            Seq::empty()
        } else {
            self.spec_filtered(s.drop_last()) + (if self.spec_filter_passes(s.last()) {
                seq![FilteredEntry { index: (s.len() - 1) as usize, id: s.last().id }]
            } else {
                seq![]
            })
        }
    }

    /// Every filtered entry points back into the snapshot, at an item that
    /// passes the filter and carries the entry's identity.
    pub proof fn lemma_filtered_valid(&self, s: Seq<HandledPeripheral>)
        requires
            s.len() <= usize::MAX,
        ensures
            forall|k: int|
                0 <= k < self.spec_filtered(s).len() ==> {
                    let e = #[trigger] self.spec_filtered(s)[k];
                    &&& e.index < s.len()
                    &&& s[e.index as int].id == e.id
                    &&& self.spec_filter_passes(s[e.index as int])
                },
        decreases s.len(),
    {
        if s.len() > 0 {
            self.lemma_filtered_valid(s.drop_last());
            assert(forall|j: int| 0 <= j < s.len() - 1 ==> s.drop_last()[j] == s[j]);
        }
    }

    /// Builds the filtered list from a snapshot.
    pub fn build_filtered(&self, peripherals: &Vec<HandledPeripheral>) -> (r: StableIndexList<
        FilteredEntry,
    >)
        ensures
            r@ == self.spec_filtered(peripherals@),
    {
        let mut r: StableIndexList<FilteredEntry> = StableIndexList::new();
        let n = peripherals.len();
        let mut i: usize = 0;
        proof {
            assert(peripherals@.take(0) =~= Seq::<HandledPeripheral>::empty());
        }
        while i < n
            invariant
                0 <= i <= n,
                n == peripherals@.len(),
                r@ == self.spec_filtered(peripherals@.take(i as int)),
            decreases n - i,
        {
            let ghost t = peripherals@.take(i + 1 as int);
            proof {
                assert(t.drop_last() =~= peripherals@.take(i as int));
                assert(t.last() == peripherals@[i as int]);
            }
            if self.filter_peripherals(&peripherals[i]) {
                r.push(FilteredEntry { index: i, id: peripherals[i].id });
            }
            i += 1;
        }
        proof {
            assert(peripherals@.take(n as int) =~= peripherals@);
        }
        r
    }
}

} // verus!

verus! {

use crate::general_options::GeneralOptions;
use crate::route::spec_side_effect_kind;

/// How the stored filter expression relates to the stored text after one
/// recomputation: cleared for no or empty text; recompiled with the flags in
/// front when the text changed and compiles; kept as it was when the text is
/// unchanged or malformed — a malformed expression is silently ignored.
pub open spec fn regex_update_ok(
    new_regex: Option<regex::Regex>,
    old_regex: Option<regex::Regex>,
    new_search: Option<Seq<char>>,
    old_search: Option<Seq<char>>,
    flags: Seq<char>,
) -> bool {
    match new_search {
        None => new_regex is None,
        Some(s) => {
            if s.len() == 0 {
                new_regex is None
            } else if old_search != Some(s) {
                if regex_ok(flags + s) {
                    new_regex matches Some(re) && regex_pattern(re) == flags + s
                } else {
                    new_regex == old_regex
                }
            } else {
                new_regex == old_regex
            }
        },
    }
}

/// The other sort key.
pub open spec fn spec_toggled_sort(sort: GeneralSort) -> GeneralSort {
    match sort {
        GeneralSort::Name => GeneralSort::DefaultSort,
        GeneralSort::DefaultSort => GeneralSort::Name,
    }
}

/// Everything one key does to the view and the shared state, clause for
/// clause: the postcondition of `PeripheralList::handle_input`, stated over
/// the states before and after the call.
pub open spec fn spec_handle_input(
    pre: PeripheralList,
    post: PeripheralList,
    pre_ctx: Ctx,
    post_ctx: Ctx,
    key: Key,
    r: HandleKeydownResult,
) -> bool {
    &&& (post_ctx.wf())
    &&& (r == HandleKeydownResult::Continue)
    &&& (post_ctx.latest_scan == pre_ctx.latest_scan)
    &&& (post_ctx.args == pre_ctx.args)
    &&& (post_ctx.global_error == pre_ctx.global_error)
    &&& (post.first_match_done == pre.first_match_done)
    &&& (regex_update_ok(
                post.search_regex,
                pre.search_regex,
                option_str_view(post.search),
                option_str_view(pre.search),
                pre_ctx.args.regex_flags@,
            ))
    &&& (pre_ctx.latest_scan is None ==> post_ctx == pre_ctx && post.list_state
                == pre.list_state && post.focus == pre.focus && post.to_remove_unknowns == pre.to_remove_unknowns && post.search == pre.search)
    &&& ((pre_ctx.latest_scan matches Some(scan) && pre.focus is Search) ==> {
                let filtered = pre.spec_filtered(pre_ctx.latest_scan->0.peripherals@);
                &&& post_ctx == pre_ctx
                &&& post.to_remove_unknowns == pre.to_remove_unknowns
                &&& option_str_view(post.search) == spec_edited_search(
                    option_str_view(pre.search),
                    key,
                )
                &&& (key == Key::Enter || key == Key::Down) ==> post.focus is List && (
                if filtered.len() > 0 {
                    post.list_state.unstable_state == Some(0usize) && post.list_state.spec_selected_id() == Some(filtered[0].id)
                } else {
                    post.list_state.unstable_state is None && post.list_state.spec_selected_id() is None
                })
                &&& (key == Key::Esc || key == Key::Tab) ==> post.focus is List && post.list_state.unstable_state is None && post.list_state.spec_selected_id() is None
                &&& !(key == Key::Enter || key == Key::Down || key == Key::Esc || key
                    == Key::Tab) ==> post.focus is Search && post.list_state.spec_selected_id() == pre.list_state.spec_selected_id() && post.list_state.unstable_state == stabilized_index(
                    filtered,
                    pre.list_state.spec_selected_id(),
                )
            })
    &&& ((pre_ctx.latest_scan matches Some(scan) && pre.focus is List) ==> {
                let filtered = pre.spec_filtered(pre_ctx.latest_scan->0.peripherals@);
                let stab = stabilized_index(filtered, pre.list_state.spec_selected_id());
                &&& post.search == pre.search
                &&& (key == Key::Right || key == Key::Char('l') || key == Key::Enter) ==> {
                    &&& post.list_state.spec_selected_id() == pre.list_state.spec_selected_id()
                    &&& post.list_state.unstable_state == stab
                    &&& post.focus is List
                    &&& post.to_remove_unknowns == pre.to_remove_unknowns
                    &&& (match stab {
                        Some(i) => {
                            &&& post_ctx.active_route matches Route::PeripheralWaitingView {
                                peripheral,
                                retry,
                            } && retry == 0 && hp_equiv(
                                peripheral,
                                pre_ctx.latest_scan->0.peripherals@[filtered[i as int].index as int],
                            )
                            &&& post_ctx.side_effect_tasks@.len() == pre_ctx.side_effect_tasks@.len() + 1
                            &&& post_ctx.side_effect_tasks@.last() is Running
                            &&& post_ctx.active_side_effect_handle == Some(
                                pre_ctx.side_effect_tasks@.len() as usize,
                            )
                            &&& post_ctx.pending_spawn matches Some(ps) && ps.task == pre_ctx.side_effect_tasks@.len() && ps.kind == spec_side_effect_kind(
                                &pre_ctx.active_route,
                                &post_ctx.active_route,
                            ) && ps.previous == pre_ctx.active_route
                            &&& post_ctx.request_scan_restart == pre_ctx.request_scan_restart
                            &&& post_ctx.general_options == pre_ctx.general_options
                        },
                        None => post_ctx == pre_ctx,
                    })
                }
                &&& (key == Key::Down || key == Key::Char('j')) ==> post_ctx == pre_ctx
                    && post.focus is List && (if filtered.len() == 0 {
                    post.list_state.unstable_state == stab && post.list_state.spec_selected_id() == pre.list_state.spec_selected_id()
                } else {
                    post.list_state.unstable_state == Some(
                        crate::ui::list::wrap_next(filtered.len(), stab) as usize,
                    ) && post.list_state.spec_selected_id() == Some(
                        filtered[crate::ui::list::wrap_next(filtered.len(), stab)].id,
                    )
                })
                &&& (key == Key::Up || key == Key::Char('k')) ==> post_ctx == pre_ctx
                    && post.focus is List && (if filtered.len() == 0 {
                    post.list_state.unstable_state == stab && post.list_state.spec_selected_id() == pre.list_state.spec_selected_id()
                } else {
                    post.list_state.unstable_state == Some(
                        crate::ui::list::wrap_previous(filtered.len(), stab) as usize,
                    ) && post.list_state.spec_selected_id() == Some(
                        filtered[crate::ui::list::wrap_previous(filtered.len(), stab)].id,
                    )
                })
                &&& (key == Key::Left || key == Key::Char('h')) ==> post_ctx == pre_ctx
                    && post.focus is List && post.list_state.unstable_state is None
                    && post.list_state.spec_selected_id() is None
                &&& (key == Key::Char('/') || key == Key::Tab) ==> post_ctx == pre_ctx
                    && post.focus is Search && post.list_state.unstable_state is None
                    && post.list_state.spec_selected_id() is None
                &&& key == Key::Char('r') ==> (post_ctx == (Ctx {
                    request_scan_restart: true,
                    ..pre_ctx
                })) && post.focus is List
                &&& key == Key::Char('u') ==> post_ctx == pre_ctx && post.to_remove_unknowns == !pre.to_remove_unknowns && post.focus is List
                &&& key == Key::Char('s') ==> (post_ctx == (Ctx {
                    general_options: GeneralOptions {
                        sort: spec_toggled_sort(pre_ctx.general_options.sort),
                    },
                    ..pre_ctx
                })) && post.focus is List
                &&& key != Key::Char('u') ==> post.to_remove_unknowns == pre.to_remove_unknowns
                &&& (key == Key::Char('r') || key == Key::Char('u') || key == Key::Char('s'))
                    ==> post.list_state.unstable_state == stab
                    && post.list_state.spec_selected_id() == pre.list_state.spec_selected_id()
                &&& !(key == Key::Right || key == Key::Char('l') || key == Key::Enter || key
                    == Key::Down || key == Key::Char('j') || key == Key::Up || key == Key::Char(
                    'k',
                ) || key == Key::Left || key == Key::Char('h') || key == Key::Char('/') || key
                    == Key::Tab || key == Key::Char('r') || key == Key::Char('u') || key
                    == Key::Char('s')) ==> post_ctx == pre_ctx && post.focus is List
                    && post.list_state.unstable_state == stab
                    && post.list_state.spec_selected_id() == pre.list_state.spec_selected_id()
            })
}

impl PeripheralList {
    /// The controller at startup: the configured device filter as initial
    /// search text, compiled if it is usable, focus on the list, nothing
    /// selected, nothing hidden.
    pub fn new(args: &Args) -> (r: Self)
        ensures
            option_str_view(r.search) == (match args.device {
                Some(d) => Some(d@),
                None => None::<Seq<char>>,
            }),
            r.focus is List,
            r.to_remove_unknowns == false,
            r.first_match_done == false,
            r.list_state.spec_selected_id() is None,
            r.list_state.unstable_state is None,
            regex_update_ok(
                r.search_regex,
                None,
                (match args.device {
                    Some(d) => Some(d@),
                    None => None::<Seq<char>>,
                }),
                None,
                args.regex_flags@,
            ),
    {
        let initial_search: Option<String> = match &args.device {
            Some(d) => Some(d.clone()),
            None => None,
        };
        let search_regex = match maybe_update_search_regexp(
            initial_search.as_ref(),
            None,
            &args.regex_flags,
        ) {
            ShouldUpdate::NoUpdate => None,
            ShouldUpdate::Update(regex) => regex,
        };
        PeripheralList {
            first_match_done: false,
            search_regex,
            search: initial_search,
            focus: Focus::List,
            list_state: StableListState::default(),
            to_remove_unknowns: false,
        }
    }

    /// Routes one key through the view: with no snapshot yet nothing
    /// happens; in search focus the key edits the filter text and enter,
    /// down, escape and tab move back to the list; in list focus the key
    /// moves the stable selection, chooses a peripheral to connect to, or
    /// flips one of the view's switches. The filter expression is recompiled
    /// only when the text changed.
    pub fn handle_input(&mut self, ctx: &mut Ctx, key: &Key) -> (r: HandleKeydownResult)
        requires
            old(ctx).wf(),
        ensures
            spec_handle_input(*old(self), *final(self), *old(ctx), *final(ctx), *key, r),
    {
        let last_search: Option<String> = match &self.search {
            Some(s) => Some(s.clone()),
            None => None,
        };
        let has_scan = match &ctx.latest_scan {
            Some(_) => true,
            None => false,
        };
        if has_scan {
            let filtered = match &ctx.latest_scan {
                Some(scan) => self.build_filtered(&scan.peripherals),
                None => StableIndexList::new(),
            };
            self.list_state.stabilize_selected_index(&filtered);
            match self.focus {
                Focus::Search => {
                    handle_search_input(&mut self.search, key);
                    match key {
                        Key::Enter | Key::Down => {
                            if !filtered.is_empty() {
                                self.list_state.select(&filtered, Some(0));
                            } else {
                                self.list_state.list_unselect(&filtered);
                            }
                            self.focus = Focus::List;
                        },
                        Key::Esc | Key::Tab => {
                            self.list_state.list_unselect(&filtered);
                            self.focus = Focus::List;
                        },
                        _ => {},
                    }
                },
                Focus::List => {
                    proof {
                        match old(self).list_state.spec_selected_id() {
                            Some(id) => {
                                crate::ui::list::lemma_first_index_with_id(filtered@, id);
                            },
                            None => {},
                        }
                    }
                    let selected_entry: Option<FilteredEntry> = match self.list_state.handle_key_input(
                        &filtered,
                        key,
                    ) {
                        HandleInputResult::Selected(e) => Some(*e),
                        HandleInputResult::Unhandled => None,
                    };
                    if let Some(entry) = selected_entry {
                        let mut target: Option<HandledPeripheral> = None;
                        if let Some(scan) = &ctx.latest_scan {
                            let n = scan.peripherals.len();
                            proof {
                                old(self).lemma_filtered_valid(scan.peripherals@);
                            }
                            if entry.index < n {
                                target = Some(scan.peripherals[entry.index].clone());
                            }
                        }
                        if let Some(peripheral) = target {
                            Route::PeripheralWaitingView { peripheral, retry: 0 }.navigate(ctx);
                        }
                    }
                    match key {
                        Key::Char('/') | Key::Tab => {
                            self.focus = Focus::Search;
                            self.list_state.list_unselect(&filtered);
                        },
                        Key::Char('r') => {
                            ctx.request_discovery_restart();
                        },
                        Key::Char('u') => {
                            self.to_remove_unknowns = !self.to_remove_unknowns;
                        },
                        Key::Char('s') => {
                            ctx.general_options.sort = match ctx.general_options.sort {
                                GeneralSort::Name => GeneralSort::DefaultSort,
                                GeneralSort::DefaultSort => GeneralSort::Name,
                            };
                        },
                        _ => {},
                    }
                },
            }
        }
        let update = maybe_update_search_regexp(
            self.search.as_ref(),
            last_search.as_ref(),
            &ctx.args.regex_flags,
        );
        if let ShouldUpdate::Update(new_regex) = update {
            self.search_regex = new_regex;
        }
        HandleKeydownResult::Continue
    }
}

} // verus!

verus! {

impl PeripheralList {
    /// The automatic descent: when a filter is set and exactly one
    /// peripheral matches it for the first time, that peripheral is selected
    /// and a connection to it starts, once. Run from the update path, never
    /// from rendering.
    pub fn maybe_auto_navigate(&mut self, ctx: &mut Ctx)
        requires
            old(ctx).wf(),
        ensures
            final(ctx).wf(),
            final(self).search == old(self).search,
            final(self).search_regex == old(self).search_regex,
            final(self).focus == old(self).focus,
            final(self).to_remove_unknowns == old(self).to_remove_unknowns,
            final(ctx).latest_scan == old(ctx).latest_scan,
            final(ctx).args == old(ctx).args,
            final(ctx).global_error == old(ctx).global_error,
            final(ctx).request_scan_restart == old(ctx).request_scan_restart,
            final(ctx).general_options == old(ctx).general_options,
            old(ctx).latest_scan is None ==> *final(ctx) == *old(ctx) && *final(self) == *old(
                self,
            ),
            old(ctx).latest_scan is Some ==> {
                let filtered = old(self).spec_filtered(old(ctx).latest_scan->0.peripherals@);
                &&& (!old(self).first_match_done && filtered.len() == 1 && old(
                    self,
                ).search is Some) ==> {
                    &&& final(self).first_match_done == true
                    &&& final(self).list_state.unstable_state == Some(0usize)
                    &&& final(self).list_state.spec_selected_id() == Some(filtered[0].id)
                    &&& final(ctx).active_route matches Route::PeripheralWaitingView {
                        peripheral,
                        retry,
                    } && retry == 0 && hp_equiv(
                        peripheral,
                        old(ctx).latest_scan->0.peripherals@[filtered[0].index as int],
                    )
                    &&& final(ctx).side_effect_tasks@.len() == old(ctx).side_effect_tasks@.len()
                        + 1
                    &&& final(ctx).active_side_effect_handle == Some(
                        old(ctx).side_effect_tasks@.len() as usize,
                    )
                    &&& final(ctx).pending_spawn matches Some(ps) && ps.task == old(
                        ctx,
                    ).side_effect_tasks@.len() && ps.kind == spec_side_effect_kind(
                        &old(ctx).active_route,
                        &final(ctx).active_route,
                    ) && ps.previous == old(ctx).active_route
                }
                &&& (!old(self).first_match_done && !(filtered.len() == 1 && old(
                    self,
                ).search is Some) && filtered.len() > 0) ==> final(self).first_match_done == true
                    && *final(ctx) == *old(ctx) && final(self).list_state == old(self).list_state
                &&& (old(self).first_match_done || filtered.len() == 0) ==> *final(ctx) == *old(
                    ctx,
                ) && *final(self) == *old(self)
            },
    {
        if self.first_match_done {
            return ;
        }
        let has_scan = match &ctx.latest_scan {
            Some(_) => true,
            None => false,
        };
        if !has_scan {
            return ;
        }
        let filtered = match &ctx.latest_scan {
            Some(scan) => self.build_filtered(&scan.peripherals),
            None => StableIndexList::new(),
        };
        if filtered.len() == 1 && self.search.is_some() {
            self.list_state.select(&filtered, Some(0));
            let entry: FilteredEntry = match filtered.get(0) {
                Some(e) => *e,
                None => FilteredEntry { index: 0, id: 0 },
            };
            let mut target: Option<HandledPeripheral> = None;
            if let Some(scan) = &ctx.latest_scan {
                let n = scan.peripherals.len();
                proof {
                    old(self).lemma_filtered_valid(scan.peripherals@);
                }
                if entry.index < n {
                    target = Some(scan.peripherals[entry.index].clone());
                }
            }
            if let Some(peripheral) = target {
                Route::PeripheralWaitingView { peripheral, retry: 0 }.navigate(ctx);
            }
            self.first_match_done = true;
        } else if !filtered.is_empty() {
            self.first_match_done = true;
        }
    }
}

} // verus!
