//! The records of the discovery domain: discovered peripherals, connected
//! peripherals and their characteristics, with the shared sorting policy over
//! them and the merge step of the discovery loop.

use crate::cli_args::spec_name_lookup;
use crate::cli_args::GeneralSort;
use crate::cli_args::GeneralSortable;
use crate::cli_args::NameMap;
use crate::cli_args::sorted_by_sort;
use crate::general_options::GeneralOptions;
use crate::ids::uuid_str_of;
use crate::ids::uuid_string;
use crate::text::chars_le;
use crate::text::chars_of;
use crate::text::lemma_seq_char_le_total;
use crate::text::lemma_seq_char_le_trans;
use crate::text::lemma_seq_pair_le_total;
use crate::text::lemma_seq_pair_le_trans;
use crate::text::lower_of;
use crate::text::str_seqs_equiv;
use crate::text::lowercase;
use crate::text::seq_char_le;
use crate::text::seq_pair_le;
use crate::ui::list::StableListItem;
use vstd::prelude::*;
use vstd::string::StringExecFns;

verus! {

/// What a characteristic advertises it can do.
#[derive(PartialEq, Eq, Structural, Debug, Clone, Copy)]
pub struct CharProps {
    pub can_broadcast: bool,
    pub can_read: bool,
    pub can_write: bool,
    pub can_write_without_response: bool,
    pub can_notify: bool,
}

/// The characters of an optional string.
pub open spec fn option_str_view(o: Option<String>) -> Option<Seq<char>> {
    match o {
        Some(s) => Some(s@),
        None => None,
    }
}

/// One discovered peripheral, merged wholesale from the discovery
/// capability's properties on each refresh and never mutated afterwards.
pub struct HandledPeripheral {
    /// Stable identity handed out by the discovery capability.
    pub id: u128,
    /// Whether the peripheral advertised no display name.
    pub name_unset: bool,
    /// Hardware address, already formatted for display.
    pub address: String,
    /// Display name; a distinguished marker when none was advertised.
    pub name: String,
    /// Signal strength of the latest advertisement, if known.
    pub rssi: Option<i16>,
    /// Display names of the advertised services.
    pub services_names: Vec<String>,
}

/// Whether two peripheral records carry the same values, comparing text by
/// its characters.
pub open spec fn hp_equiv(a: HandledPeripheral, b: HandledPeripheral) -> bool {
    &&& a.id == b.id
    &&& a.name_unset == b.name_unset
    &&& a.address@ == b.address@
    &&& a.name@ == b.name@
    &&& a.rssi == b.rssi
    &&& str_seqs_equiv(a.services_names@, b.services_names@)
}

/// Copies a list of strings, keeping each one's characters.
fn clone_string_vec(v: &Vec<String>) -> (r: Vec<String>)
    ensures
        str_seqs_equiv(r@, v@),
{
    let mut r: Vec<String> = Vec::new();
    let n = v.len();
    let mut i: usize = 0;
    while i < n
        invariant
            0 <= i <= n,
            n == v@.len(),
            r@.len() == i,
            forall|k: int| 0 <= k < i ==> r@[k]@ == v@[k]@,
        decreases n - i,
    {
        r.push(v[i].clone());
        i += 1;
    }
    r
}

impl Clone for HandledPeripheral {
    /// A copy carrying the same values.
    fn clone(&self) -> (r: Self)
        ensures
            hp_equiv(r, *self),
    {
        HandledPeripheral {
            id: self.id,
            name_unset: self.name_unset,
            address: self.address.clone(),
            name: self.name.clone(),
            rssi: self.rssi,
            services_names: clone_string_vec(&self.services_names),
        }
    }
}

/// The default order of peripherals: by signal strength, unknown readings
/// first.
pub open spec fn rssi_le(a: Option<i16>, b: Option<i16>) -> bool {
    match (a, b) {
        (Option::None, _) => true,
        (Option::Some(_), Option::None) => false,
        (Option::Some(x), Option::Some(y)) => x <= y,
    }
}

impl GeneralSortable for HandledPeripheral {
    /// Name order puts peripherals without an advertised name last and is
    /// case-insensitive among the named ones; the default order goes by
    /// signal strength.
    open spec fn spec_le(sort: GeneralSort, a: &Self, b: &Self) -> bool {
        match sort {
            GeneralSort::Name => {
                if b.name_unset {
                    true
                } else if a.name_unset {
                    false
                } else {
                    seq_char_le(lower_of(a.name@), lower_of(b.name@))
                }
            },
            GeneralSort::DefaultSort => rssi_le(a.rssi, b.rssi),
        }
    }

    proof fn lemma_le_total(sort: GeneralSort, a: &Self, b: &Self) {
        match sort {
            GeneralSort::Name => {
                if !a.name_unset && !b.name_unset {
                    lemma_seq_char_le_total(lower_of(a.name@), lower_of(b.name@));
                }
            },
            GeneralSort::DefaultSort => {},
        }
    }

    proof fn lemma_le_trans(sort: GeneralSort, a: &Self, b: &Self, c: &Self) {
        match sort {
            GeneralSort::Name => {
                if !a.name_unset && !b.name_unset && !c.name_unset {
                    lemma_seq_char_le_trans(
                        lower_of(a.name@),
                        lower_of(b.name@),
                        lower_of(c.name@),
                    );
                }
            },
            GeneralSort::DefaultSort => {},
        }
    }

    fn le(sort: &GeneralSort, a: &Self, b: &Self) -> (r: bool) {
        match sort {
            GeneralSort::Name => {
                if b.name_unset {
                    true
                } else if a.name_unset {
                    false
                } else {
                    let la = lowercase(a.name.as_str());
                    let lb = lowercase(b.name.as_str());
                    let ca = chars_of(la.as_str());
                    let cb = chars_of(lb.as_str());
                    chars_le(&ca, &cb)
                }
            },
            GeneralSort::DefaultSort => {
                match (a.rssi, b.rssi) {
                    (Option::None, _) => true,
                    (Option::Some(_), Option::None) => false,
                    (Option::Some(x), Option::Some(y)) => x <= y,
                }
            },
        }
    }
}

impl StableListItem for HandledPeripheral {
    open spec fn spec_id(&self) -> u128 {
        self.id
    }

    fn id(&self) -> u128 {
        self.id
    }
}

/// One characteristic of a connected peripheral, created when the attribute
/// set is enumerated after connecting and immutable for the life of that
/// connection.
pub struct ConnectedCharacteristic {
    /// Well-known display name for the characteristic, if the id has one.
    pub standard_gatt_char_name: Option<String>,
    /// Well-known display name for the owning service, if the id has one.
    pub standard_gatt_service_name: Option<String>,
    /// Name from the user's own names file, if any.
    pub custom_char_name: Option<String>,
    pub custom_service_name: Option<String>,
    /// Identity, unique within the connected peripheral.
    pub uuid: u128,
    /// Identity of the owning service group.
    pub service_uuid: u128,
    /// What the characteristic advertises it can do.
    pub properties: CharProps,
}

impl ConnectedCharacteristic {
    /// Whether some resolved display name exists for the characteristic.
    pub open spec fn spec_has_readable_char_name(&self) -> bool {
        self.custom_char_name is Some || self.standard_gatt_char_name is Some
    }

    pub fn has_readable_char_name(&self) -> (r: bool)
        ensures
            r == self.spec_has_readable_char_name(),
    {
        self.custom_char_name.is_some() || self.standard_gatt_char_name.is_some()
    }

    /// Whether some resolved display name exists for the owning service.
    pub open spec fn spec_has_readable_service_name(&self) -> bool {
        self.custom_service_name is Some || self.standard_gatt_service_name is Some
    }

    pub fn has_readable_service_name(&self) -> (r: bool)
        ensures
            r == self.spec_has_readable_service_name(),
    {
        self.custom_service_name.is_some() || self.standard_gatt_service_name.is_some()
    }

    /// The display name of the characteristic: the user's own name annotated
    /// with the id, else the well-known name, else the id itself.
    pub open spec fn spec_char_name(&self) -> Seq<char> {
        match self.custom_char_name {
            Some(custom) => custom@ + " ("@ + uuid_str_of(self.uuid) + ")"@,
            None => match self.standard_gatt_char_name {
                Some(standard) => standard@,
                None => uuid_str_of(self.uuid),
            },
        }
    }

    pub fn char_name(&self) -> (r: String)
        ensures
            r@ == self.spec_char_name(),
    {
        if let Some(custom) = &self.custom_char_name {
            let mut s = custom.clone();
            s.append(" (");
            let u = uuid_string(self.uuid);
            s.append(u.as_str());
            s.append(")");
            s
        } else if let Some(standard) = &self.standard_gatt_char_name {
            standard.clone()
        } else {
            uuid_string(self.uuid)
        }
    }

    /// The display name of the owning service, formed like the
    /// characteristic's own.
    pub open spec fn spec_service_name(&self) -> Seq<char> {
        match self.custom_service_name {
            Some(custom) => custom@ + " ("@ + uuid_str_of(self.service_uuid) + ")"@,
            None => match self.standard_gatt_service_name {
                Some(standard) => standard@,
                None => uuid_str_of(self.service_uuid),
            },
        }
    }

    pub fn service_name(&self) -> (r: String)
        ensures
            r@ == self.spec_service_name(),
    {
        if let Some(custom) = &self.custom_service_name {
            let mut s = custom.clone();
            s.append(" (");
            let u = uuid_string(self.service_uuid);
            s.append(u.as_str());
            s.append(")");
            s
        } else if let Some(standard) = &self.standard_gatt_service_name {
            standard.clone()
        } else {
            uuid_string(self.service_uuid)
        }
    }

    /// The case-folded (service name, characteristic name) pair the name
    /// order compares.
    pub open spec fn spec_name_sort_key(&self) -> (Seq<char>, Seq<char>) {
        (lower_of(self.spec_service_name()), lower_of(self.spec_char_name()))
    }
}

impl GeneralSortable for ConnectedCharacteristic {
    /// Name order puts characteristics without a resolved name last and
    /// compares the named ones by case-folded service name, then name; the
    /// default order goes by service id, then characteristic id.
    open spec fn spec_le(sort: GeneralSort, a: &Self, b: &Self) -> bool {
        match sort {
            GeneralSort::Name => {
                if a.spec_has_readable_char_name() && !b.spec_has_readable_char_name() {
                    true
                } else if !a.spec_has_readable_char_name() && b.spec_has_readable_char_name() {
                    false
                } else {
                    seq_pair_le(
                        a.spec_name_sort_key().0,
                        a.spec_name_sort_key().1,
                        b.spec_name_sort_key().0,
                        b.spec_name_sort_key().1,
                    )
                }
            },
            GeneralSort::DefaultSort => a.service_uuid < b.service_uuid || (a.service_uuid
                == b.service_uuid && a.uuid <= b.uuid),
        }
    }

    proof fn lemma_le_total(sort: GeneralSort, a: &Self, b: &Self) {
        match sort {
            GeneralSort::Name => {
                if a.spec_has_readable_char_name() == b.spec_has_readable_char_name() {
                    lemma_seq_pair_le_total(
                        a.spec_name_sort_key().0,
                        a.spec_name_sort_key().1,
                        b.spec_name_sort_key().0,
                        b.spec_name_sort_key().1,
                    );
                }
            },
            GeneralSort::DefaultSort => {},
        }
    }

    proof fn lemma_le_trans(sort: GeneralSort, a: &Self, b: &Self, c: &Self) {
        match sort {
            GeneralSort::Name => {
                if a.spec_has_readable_char_name() == b.spec_has_readable_char_name()
                    && b.spec_has_readable_char_name() == c.spec_has_readable_char_name() {
                    lemma_seq_pair_le_trans(
                        a.spec_name_sort_key().0,
                        a.spec_name_sort_key().1,
                        b.spec_name_sort_key().0,
                        b.spec_name_sort_key().1,
                        c.spec_name_sort_key().0,
                        c.spec_name_sort_key().1,
                    );
                }
            },
            GeneralSort::DefaultSort => {},
        }
    }

    fn le(sort: &GeneralSort, a: &Self, b: &Self) -> (r: bool) {
        match sort {
            GeneralSort::Name => {
                let ar = a.has_readable_char_name();
                let br = b.has_readable_char_name();
                if ar && !br {
                    true
                } else if !ar && br {
                    false
                } else {
                    let sna = a.service_name();
                    let lsa = lowercase(sna.as_str());
                    let sa = chars_of(lsa.as_str());
                    let cna = a.char_name();
                    let lca = lowercase(cna.as_str());
                    let ca = chars_of(lca.as_str());
                    let snb = b.service_name();
                    let lsb = lowercase(snb.as_str());
                    let sb = chars_of(lsb.as_str());
                    let cnb = b.char_name();
                    let lcb = lowercase(cnb.as_str());
                    let cb = chars_of(lcb.as_str());
                    let le_ab = chars_le(&sa, &sb);
                    let le_ba = chars_le(&sb, &sa);
                    if le_ab && le_ba {
                        chars_le(&ca, &cb)
                    } else {
                        le_ab
                    }
                }
            },
            GeneralSort::DefaultSort => {
                a.service_uuid < b.service_uuid || (a.service_uuid == b.service_uuid && a.uuid
                    <= b.uuid)
            },
        }
    }
}

impl StableListItem for ConnectedCharacteristic {
    open spec fn spec_id(&self) -> u128 {
        self.uuid
    }

    fn id(&self) -> u128 {
        self.uuid
    }
}

} // verus!

verus! {

/// Whether a list of strings spells out exactly the expected texts.
pub open spec fn strs_match(out: Seq<String>, exp: Seq<Seq<char>>) -> bool {
    &&& out.len() == exp.len()
    &&& forall|k: int| 0 <= k < out.len() ==> out[k]@ == exp[k]
}

/// The names the user's map knows, as a sequence of entries; nothing when no
/// map was given.
pub open spec fn spec_names_view(names: Option<&NameMap>) -> Seq<(u128, String)> {
    match names {
        Some(m) => m@,
        None => Seq::empty(),
    }
}

/// One characteristic as the connection capability reports it, already
/// annotated with the well-known names the external name source resolved.
pub struct RawCharacteristic {
    pub uuid: u128,
    pub service_uuid: u128,
    pub standard_gatt_char_name: Option<String>,
    pub standard_gatt_service_name: Option<String>,
    pub properties: CharProps,
}

/// How a built characteristic record relates to the reported one: reported
/// fields kept, the user's characteristic name looked up under the
/// characteristic's id and the user's service name under the owning
/// service's id.
pub open spec fn matches_raw(
    cc: ConnectedCharacteristic,
    raw: RawCharacteristic,
    names: Seq<(u128, String)>,
) -> bool {
    &&& cc.uuid == raw.uuid
    &&& cc.service_uuid == raw.service_uuid
    &&& option_str_view(cc.standard_gatt_char_name) == option_str_view(raw.standard_gatt_char_name)
    &&& option_str_view(cc.standard_gatt_service_name) == option_str_view(
        raw.standard_gatt_service_name,
    )
    &&& option_str_view(cc.custom_char_name) == spec_name_lookup(names, raw.uuid)
    &&& option_str_view(cc.custom_service_name) == spec_name_lookup(names, raw.service_uuid)
    &&& cc.properties == raw.properties
}

/// Copies an optional string, keeping its characters.
fn clone_opt_string(o: &Option<String>) -> (r: Option<String>)
    ensures
        option_str_view(r) == option_str_view(*o),
{
    match o {
        Some(s) => Some(s.clone()),
        None => None,
    }
}

/// Looks an id up in the user's names map, if one was given.
fn lookup_custom_name(names: Option<&NameMap>, id: u128) -> (r: Option<String>)
    ensures
        option_str_view(r) == spec_name_lookup(spec_names_view(names), id),
{
    match names {
        Some(m) => match m.get(id) {
            Some(s) => Some(s.clone()),
            None => None,
        },
        None => None,
    }
}

/// Builds the characteristic records for one connected peripheral, one per
/// reported characteristic, in the reported order.
pub fn build_characteristics(names: Option<&NameMap>, raws: &Vec<RawCharacteristic>) -> (r: Vec<
    ConnectedCharacteristic,
>)
    ensures
        r@.len() == raws@.len(),
        forall|k: int|
            0 <= k < r@.len() ==> matches_raw(#[trigger] r@[k], raws@[k], spec_names_view(names)),
{
    let mut r: Vec<ConnectedCharacteristic> = Vec::new();
    let n = raws.len();
    let mut i: usize = 0;
    while i < n
        invariant
            0 <= i <= n,
            n == raws@.len(),
            r@.len() == i,
            forall|k: int|
                0 <= k < i ==> matches_raw(#[trigger] r@[k], raws@[k], spec_names_view(names)),
        decreases n - i,
    {
        let raw = &raws[i];
        let cc = ConnectedCharacteristic {
            standard_gatt_char_name: clone_opt_string(&raw.standard_gatt_char_name),
            standard_gatt_service_name: clone_opt_string(&raw.standard_gatt_service_name),
            custom_char_name: lookup_custom_name(names, raw.uuid),
            custom_service_name: lookup_custom_name(names, raw.service_uuid),
            uuid: raw.uuid,
            service_uuid: raw.service_uuid,
            properties: raw.properties,
        };
        r.push(cc);
        i += 1;
    }
    r
}

/// One peripheral connected and enumerated: the discovery record and the
/// characteristic records, under the active sort.
pub struct ConnectedPeripheral {
    pub peripheral: HandledPeripheral,
    pub characteristics: Vec<ConnectedCharacteristic>,
}

impl ConnectedPeripheral {
    /// Re-orders the characteristics under the active sort key.
    pub fn apply_sort(&mut self, options: &GeneralOptions)
        ensures
            final(self).peripheral == old(self).peripheral,
            sorted_by_sort(options.sort, final(self).characteristics@),
            final(self).characteristics@.to_multiset() == old(self).characteristics@.to_multiset(),
            sorted_by_sort(options.sort, old(self).characteristics@) ==> final(self)
                .characteristics@ == old(self).characteristics@,
    {
        options.sort.sort(&mut self.characteristics);
    }

    /// Builds the record for a freshly connected peripheral: one
    /// characteristic record per reported characteristic, ordered under the
    /// active sort key.
    pub fn new(
        names: Option<&NameMap>,
        options: &GeneralOptions,
        peripheral: HandledPeripheral,
        raws: &Vec<RawCharacteristic>,
    ) -> (r: Self)
        ensures
            r.peripheral == peripheral,
            sorted_by_sort(options.sort, r.characteristics@),
            exists|built: Seq<ConnectedCharacteristic>|
                #![trigger built.to_multiset()]
                {
                    &&& built.len() == raws@.len()
                    &&& (forall|k: int|
                        0 <= k < built.len() ==> matches_raw(
                            #[trigger] built[k],
                            raws@[k],
                            spec_names_view(names),
                        ))
                    &&& r.characteristics@.to_multiset() == built.to_multiset()
                },
    {
        let characteristics = build_characteristics(names, raws);
        let ghost built = characteristics@;
        let mut view = ConnectedPeripheral { peripheral, characteristics };
        view.apply_sort(options);
        proof {
            assert(built.len() == raws@.len() && (forall|k: int|
                0 <= k < built.len() ==> matches_raw(
                    #[trigger] built[k],
                    raws@[k],
                    spec_names_view(names),
                )) && view.characteristics@.to_multiset() == built.to_multiset());
        }
        view
    }
}

} // verus!

verus! {

/// One advertised service as the discovery capability reports it, already
/// annotated with the well-known name the external name source resolved.
pub struct ServiceInfo {
    pub uuid: u128,
    pub standard_name: Option<String>,
}

/// The raw properties of one visible peripheral, as plain values.
pub struct PeripheralProps {
    pub id: u128,
    pub address: String,
    pub local_name: Option<String>,
    pub rssi: Option<i16>,
    pub services: Vec<ServiceInfo>,
}

/// The display names shown for one advertised service: the user's own name
/// if any, then the well-known name if any, then the id itself.
pub open spec fn spec_service_entries(s: ServiceInfo, names: Seq<(u128, String)>) -> Seq<
    Seq<char>,
> {
    (match spec_name_lookup(names, s.uuid) {
        Some(c) => seq![c],
        None => seq![],
    }) + (match s.standard_name {
        Some(n) => seq![n@],
        None => seq![],
    }) + seq![uuid_str_of(s.uuid)]
}

/// The display names shown for a list of advertised services, in order.
pub open spec fn spec_services_names(services: Seq<ServiceInfo>, names: Seq<(u128, String)>) -> Seq<
    Seq<char>,
>
    decreases services.len(),
{
    if services.len() == 0 {
        Seq::empty()
    } else {
        spec_service_entries(services[0], names) + spec_services_names(services.skip(1), names)
    }
}

/// Extending the service list by one extends its names by that service's
/// entries.
proof fn lemma_services_names_take_succ(
    services: Seq<ServiceInfo>,
    names: Seq<(u128, String)>,
    j: int,
)
    requires
        0 <= j < services.len(),
    ensures
        spec_services_names(services.take(j + 1), names) == spec_services_names(
            services.take(j),
            names,
        ) + spec_service_entries(services[j], names),
    decreases j,
{
    if j == 0 {
        assert(services.take(1)[0] == services[0]);
        assert(services.take(1).skip(1) =~= Seq::<ServiceInfo>::empty());
        assert(services.take(0) =~= Seq::<ServiceInfo>::empty());
        assert(spec_services_names(services.take(0), names) + spec_service_entries(
            services[0],
            names,
        ) =~= spec_service_entries(services[0], names) + spec_services_names(
            Seq::empty(),
            names,
        ));
    } else {
        let sub = services.skip(1);
        lemma_services_names_take_succ(sub, names, j - 1);
        assert(services.take(j + 1)[0] == services[0]);
        assert(services.take(j + 1).skip(1) =~= sub.take(j));
        assert(services.take(j)[0] == services[0]);
        assert(services.take(j).skip(1) =~= sub.take(j - 1));
        assert(sub[j - 1] == services[j]);
        assert(spec_service_entries(services[0], names) + (spec_services_names(
            sub.take(j - 1),
            names,
        ) + spec_service_entries(services[j], names)) =~= (spec_service_entries(services[0], names)
            + spec_services_names(sub.take(j - 1), names)) + spec_service_entries(
            services[j],
            names,
        ));
    }
}

/// Builds the display names for the advertised services of one peripheral.
fn build_services_names(services: &Vec<ServiceInfo>, names: Option<&NameMap>) -> (r: Vec<String>)
    ensures
        strs_match(r@, spec_services_names(services@, spec_names_view(names))),
{
    let ghost names_seq = spec_names_view(names);
    let mut r: Vec<String> = Vec::new();
    let n = services.len();
    let mut i: usize = 0;
    proof {
        assert(services@.take(0) =~= Seq::<ServiceInfo>::empty());
    }
    while i < n
        invariant
            0 <= i <= n,
            n == services@.len(),
            names_seq == spec_names_view(names),
            strs_match(r@, spec_services_names(services@.take(i as int), names_seq)),
        decreases n - i,
    {
        let s = &services[i];
        let ghost exp_before = spec_services_names(services@.take(i as int), names_seq);
        let ghost entries = spec_service_entries(services@[i as int], names_seq);
        if let Some(custom) = lookup_custom_name(names, s.uuid) {
            r.push(custom);
        }
        if let Some(standard) = &s.standard_name {
            r.push(standard.clone());
        }
        r.push(uuid_string(s.uuid));
        proof {
            lemma_services_names_take_succ(services@, names_seq, i as int);
            assert(strs_match(r@, exp_before + entries));
        }
        i += 1;
    }
    proof {
        assert(services@.take(n as int) =~= services@);
    }
    r
}

/// How a merged peripheral record relates to the reported properties: an
/// unset display name becomes the distinguished unknown marker, everything
/// else is kept.
pub open spec fn matches_props(
    hp: HandledPeripheral,
    p: PeripheralProps,
    names: Seq<(u128, String)>,
) -> bool {
    &&& hp.id == p.id
    &&& hp.address@ == p.address@
    &&& hp.name_unset == (p.local_name is None)
    &&& hp.name@ == (match p.local_name {
        Some(n) => n@,
        None => "Unknown device"@,
    })
    &&& hp.rssi == p.rssi
    &&& strs_match(hp.services_names@, spec_services_names(p.services@, names))
}

/// Merges one discovery refresh into peripheral records, one per reported
/// peripheral, in the reported order.
pub fn merge_peripherals(props: &Vec<PeripheralProps>, names: Option<&NameMap>) -> (r: Vec<
    HandledPeripheral,
>)
    ensures
        r@.len() == props@.len(),
        forall|k: int|
            0 <= k < r@.len() ==> matches_props(#[trigger] r@[k], props@[k], spec_names_view(names)),
{
    let mut r: Vec<HandledPeripheral> = Vec::new();
    let n = props.len();
    let mut i: usize = 0;
    while i < n
        invariant
            0 <= i <= n,
            n == props@.len(),
            r@.len() == i,
            forall|k: int|
                0 <= k < i ==> matches_props(#[trigger] r@[k], props@[k], spec_names_view(names)),
        decreases n - i,
    {
        let p = &props[i];
        let name_unset = p.local_name.is_none();
        let name = match &p.local_name {
            Some(n) => n.clone(),
            None => String::from_str("Unknown device"),
        };
        let hp = HandledPeripheral {
            id: p.id,
            name_unset,
            address: p.address.clone(),
            name,
            rssi: p.rssi,
            services_names: build_services_names(&p.services, names),
        };
        r.push(hp);
        i += 1;
    }
    r
}

/// One discovery refresh, replaced wholesale in the shared state.
pub struct BleScan {
    /// The visible peripherals, under the active sort.
    pub peripherals: Vec<HandledPeripheral>,
    /// When the refresh finished, in milliseconds.
    pub sync_time_millis: i64,
}

/// The labels advertised by a characteristic's properties, in display order.
pub open spec fn spec_prop_labels(p: CharProps) -> Seq<Seq<char>> {
    (if p.can_broadcast {
        seq!["Broadcast"@]
    } else {
        seq![]
    }) + (if p.can_read {
        seq!["Read"@]
    } else {
        seq![]
    }) + (if p.can_write || p.can_write_without_response {
        seq!["Write"@]
    } else {
        seq![]
    }) + (if p.can_notify {
        seq!["Notify"@]
    } else {
        seq![]
    })
}

/// The parts joined with a comma and a space between each two.
pub open spec fn spec_join(parts: Seq<Seq<char>>) -> Seq<char>
    decreases parts.len(),
{
    if parts.len() == 0 {
        Seq::empty()
    } else if parts.len() == 1 {
        parts[0]
    } else {
        spec_join(parts.drop_last()) + ", "@ + parts.last()
    }
}

/// Renders what a characteristic advertises it can do, as one line.
pub fn display_properties(props: &CharProps) -> (r: String)
    ensures
        r@ == spec_join(spec_prop_labels(*props)),
{
    let ghost exp = spec_prop_labels(*props);
    let mut labels: Vec<&str> = Vec::new();
    if props.can_broadcast {
        labels.push("Broadcast");
    }
    if props.can_read {
        labels.push("Read");
    }
    if props.can_write || props.can_write_without_response {
        labels.push("Write");
    }
    if props.can_notify {
        labels.push("Notify");
    }
    proof {
        assert(labels@.len() == exp.len());
        assert(forall|k: int| 0 <= k < labels@.len() ==> labels@[k]@ == exp[k]);
    }
    let mut out = String::new();
    let n = labels.len();
    let mut i: usize = 0;
    while i < n
        invariant
            0 <= i <= n,
            n == labels@.len(),
            n == exp.len(),
            forall|k: int| 0 <= k < labels@.len() ==> labels@[k]@ == exp[k],
            out@ == spec_join(exp.take(i as int)),
        decreases n - i,
    {
        if i > 0 {
            out.append(", ");
        }
        out.append(labels[i]);
        proof {
            let t = exp.take(i + 1 as int);
            assert(t.drop_last() =~= exp.take(i as int));
            assert(t.last() == exp[i as int]);
            if i == 0 {
                assert(spec_join(t) == exp[0]);
                assert(exp.take(0) =~= Seq::<Seq<char>>::empty());
            }
        }
        i += 1;
    }
    proof {
        assert(exp.take(n as int) =~= exp);
    }
    out
}

} // verus!

verus! {

/// Whether two characteristic records carry the same values, comparing text
/// by its characters.
pub open spec fn cc_equiv(a: ConnectedCharacteristic, b: ConnectedCharacteristic) -> bool {
    &&& option_str_view(a.standard_gatt_char_name) == option_str_view(b.standard_gatt_char_name)
    &&& option_str_view(a.standard_gatt_service_name) == option_str_view(
        b.standard_gatt_service_name,
    )
    &&& option_str_view(a.custom_char_name) == option_str_view(b.custom_char_name)
    &&& option_str_view(a.custom_service_name) == option_str_view(b.custom_service_name)
    &&& a.uuid == b.uuid
    &&& a.service_uuid == b.service_uuid
    &&& a.properties == b.properties
}

impl Clone for ConnectedCharacteristic {
    /// A copy carrying the same values.
    fn clone(&self) -> (r: Self)
        ensures
            cc_equiv(r, *self),
    {
        ConnectedCharacteristic {
            standard_gatt_char_name: clone_opt_string(&self.standard_gatt_char_name),
            standard_gatt_service_name: clone_opt_string(&self.standard_gatt_service_name),
            custom_char_name: clone_opt_string(&self.custom_char_name),
            custom_service_name: clone_opt_string(&self.custom_service_name),
            uuid: self.uuid,
            service_uuid: self.service_uuid,
            properties: self.properties,
        }
    }
}

/// Whether two connected-peripheral records carry the same values.
pub open spec fn cp_equiv(a: ConnectedPeripheral, b: ConnectedPeripheral) -> bool {
    &&& hp_equiv(a.peripheral, b.peripheral)
    &&& a.characteristics@.len() == b.characteristics@.len()
    &&& forall|k: int|
        0 <= k < a.characteristics@.len() ==> cc_equiv(
            #[trigger] a.characteristics@[k],
            b.characteristics@[k],
        )
}

impl Clone for ConnectedPeripheral {
    /// A copy carrying the same values.
    fn clone(&self) -> (r: Self)
        ensures
            cp_equiv(r, *self),
    {
        let mut characteristics: Vec<ConnectedCharacteristic> = Vec::new();
        let n = self.characteristics.len();
        let mut i: usize = 0;
        while i < n
            invariant
                0 <= i <= n,
                n == self.characteristics@.len(),
                characteristics@.len() == i,
                forall|k: int|
                    0 <= k < i ==> cc_equiv(
                        #[trigger] characteristics@[k],
                        self.characteristics@[k],
                    ),
            decreases n - i,
        {
            characteristics.push(self.characteristics[i].clone());
            i += 1;
        }
        ConnectedPeripheral { peripheral: self.peripheral.clone(), characteristics }
    }
}

} // verus!

verus! {

/// Under the name order, every peripheral without a resolved name stands
/// after every one with a resolved name — whichever way the comparison among
/// the named ones pointed.
pub proof fn lemma_name_sort_unknowns_last(s: Seq<HandledPeripheral>)
    requires
        sorted_by_sort(GeneralSort::Name, s),
    ensures
        forall|i: int, j: int|
            0 <= i < j < s.len() && s[i].name_unset ==> s[j].name_unset,
{
    assert forall|i: int, j: int|
        0 <= i < j < s.len() && s[i].name_unset implies s[j].name_unset by {
        assert(HandledPeripheral::spec_le(GeneralSort::Name, &s[i], &s[j]));
    }
}

/// The same holds of characteristics: under the name order, every one
/// without a resolved display name stands after every one with one.
pub proof fn lemma_name_sort_unnamed_chars_last(s: Seq<ConnectedCharacteristic>)
    requires
        sorted_by_sort(GeneralSort::Name, s),
    ensures
        forall|i: int, j: int|
            0 <= i < j < s.len() && !s[i].spec_has_readable_char_name()
                ==> !s[j].spec_has_readable_char_name(),
{
    assert forall|i: int, j: int|
        0 <= i < j < s.len() && !s[i].spec_has_readable_char_name() implies !(
    s[j].spec_has_readable_char_name()) by {
        assert(ConnectedCharacteristic::spec_le(GeneralSort::Name, &s[i], &s[j]));
    }
}

} // verus!
