//! Guest security features that the VMSA of each vCPU carries (`SEV_FEATURES`).
//!
//! The set is a 64-bit mask; fourteen of its bits have a name. The names are
//! rendered for diagnostics as a comma-separated list, or `None` when no named
//! bit is set.
use vstd::prelude::*;
use vstd::string::*;

verus! {

/// Number of named guest features.
pub const FEATURE_COUNT: usize = 14;

/// The bits of the mask that carry a named feature (bits 0 to 10, 12, 14 and 15).
pub const KNOWN_FEATURE_MASK: u64 = 0xD7FF;

/// One named guest feature.
#[derive(Clone, Copy, Debug, PartialEq, Eq, Structural)]
pub enum GuestFeature {
    SnpActive,
    VTom,
    ReflectVc,
    RestrictedInjection,
    AlternateInjection,
    DebugSwap,
    PreventHostIbs,
    BtbIsolation,
    VmplSss,
    SecureTsc,
    VmgExitParameter,
    IbsVirtualization,
    VmsaRegProt,
    SmtProtection,
}

/// A guest-feature bitmask.
#[derive(Clone, Copy, Debug, PartialEq, Eq, Structural)]
pub struct GuestFeatureSet {
    pub bits: u64,
}

/// The feature at position `i` of the fixed presentation order.
pub open spec fn feature_at(i: int) -> GuestFeature {
    if i == 0 {
        GuestFeature::SnpActive
    } else if i == 1 {
        GuestFeature::VTom
    } else if i == 2 {
        GuestFeature::ReflectVc
    } else if i == 3 {
        GuestFeature::RestrictedInjection
    } else if i == 4 {
        GuestFeature::AlternateInjection
    } else if i == 5 {
        GuestFeature::DebugSwap
    } else if i == 6 {
        GuestFeature::PreventHostIbs
    } else if i == 7 {
        GuestFeature::BtbIsolation
    } else if i == 8 {
        GuestFeature::VmplSss
    } else if i == 9 {
        GuestFeature::SecureTsc
    } else if i == 10 {
        GuestFeature::VmgExitParameter
    } else if i == 11 {
        GuestFeature::IbsVirtualization
    } else if i == 12 {
        GuestFeature::VmsaRegProt
    } else {
        GuestFeature::SmtProtection
    }
}

/// The bit that a feature occupies in the mask.
pub open spec fn bit_position(f: GuestFeature) -> u64 {
    match f {
        GuestFeature::SnpActive => 0,
        GuestFeature::VTom => 1,
        GuestFeature::ReflectVc => 2,
        GuestFeature::RestrictedInjection => 3,
        GuestFeature::AlternateInjection => 4,
        GuestFeature::DebugSwap => 5,
        GuestFeature::PreventHostIbs => 6,
        GuestFeature::BtbIsolation => 7,
        GuestFeature::VmplSss => 8,
        GuestFeature::SecureTsc => 9,
        GuestFeature::VmgExitParameter => 10,
        GuestFeature::IbsVirtualization => 12,
        GuestFeature::VmsaRegProt => 14,
        GuestFeature::SmtProtection => 15,
    }
}

/// The human-readable name of a feature.
pub open spec fn feature_name(f: GuestFeature) -> Seq<char> {
    match f {
        GuestFeature::SnpActive => "SNPActive"@,
        GuestFeature::VTom => "vTOM"@,
        GuestFeature::ReflectVc => "ReflectVC"@,
        GuestFeature::RestrictedInjection => "RestrictedInjection"@,
        GuestFeature::AlternateInjection => "AlternateInjection"@,
        GuestFeature::DebugSwap => "DebugSwap"@,
        GuestFeature::PreventHostIbs => "PreventHostIBS"@,
        GuestFeature::BtbIsolation => "BTBIsolation"@,
        GuestFeature::VmplSss => "VmplSSS"@,
        GuestFeature::SecureTsc => "SecureTSC"@,
        GuestFeature::VmgExitParameter => "VmgexitParameter"@,
        GuestFeature::IbsVirtualization => "IbsVirtualization"@,
        GuestFeature::VmsaRegProt => "VmsaRegProt"@,
        GuestFeature::SmtProtection => "SmtProtection"@,
    }
}

/// The single-bit mask of a feature.
pub open spec fn feature_mask(f: GuestFeature) -> u64 {
    1u64 << bit_position(f)
}

/// Whether `f` is set in `bits`.
pub open spec fn has_feature(bits: u64, f: GuestFeature) -> bool {
    (bits >> bit_position(f)) & 1u64 == 1u64
}

/// The features of `bits` at positions `i..` of the presentation order.
pub open spec fn enabled_from(bits: u64, i: int) -> Seq<GuestFeature>
    decreases FEATURE_COUNT - i,
{
    if i < 0 || i >= FEATURE_COUNT {
        seq![]
    } else {
        let rest = enabled_from(bits, i + 1);
        if has_feature(bits, feature_at(i)) {
            seq![feature_at(i)] + rest
        } else {
            rest
        }
    }
}

/// The named features set in `bits`, in presentation order.
pub open spec fn enabled_list(bits: u64) -> Seq<GuestFeature> {
    enabled_from(bits, 0)
}

/// The mask that holds exactly the features of a list.
pub open spec fn mask_of(fs: Seq<GuestFeature>) -> u64
    decreases fs.len(),
{
    if fs.len() == 0 {
        0
    } else {
        feature_mask(fs[0]) | mask_of(fs.drop_first())
    }
}

/// The items of `list` joined with `sep` between neighbours.
pub open spec fn join_with(list: Seq<Seq<char>>, sep: Seq<char>) -> Seq<char>
    decreases list.len(),
{
    if list.len() == 0 {
        seq![]
    } else if list.len() == 1 {
        list[0]
    } else {
        join_with(list.drop_last(), sep) + sep + list.last()
    }
}

/// The names of a list of features.
pub open spec fn names_of(fs: Seq<GuestFeature>) -> Seq<Seq<char>> {
    fs.map_values(|f: GuestFeature| feature_name(f))
}

/// The diagnostic rendering of a mask: its feature names joined by `", "`,
/// or `None` when no named feature is set.
pub open spec fn features_text(bits: u64) -> Seq<char> {
    if enabled_list(bits).len() == 0 {
        "None"@
    } else {
        join_with(names_of(enabled_list(bits)), ", "@)
    }
}

/// The known bits at positions `i..` of the presentation order.
pub open spec fn known_from(i: int) -> u64
    decreases FEATURE_COUNT - i,
{
    if i < 0 || i >= FEATURE_COUNT {
        0
    } else {
        feature_mask(feature_at(i)) | known_from(i + 1)
    }
}

impl GuestFeature {
    /// The feature at position `i` of the presentation order.
    pub fn at(i: usize) -> (f: GuestFeature)
        requires
            i < FEATURE_COUNT,
        ensures
            f == feature_at(i as int),
    {
        match i {
            0 => GuestFeature::SnpActive,
            1 => GuestFeature::VTom,
            2 => GuestFeature::ReflectVc,
            3 => GuestFeature::RestrictedInjection,
            4 => GuestFeature::AlternateInjection,
            5 => GuestFeature::DebugSwap,
            6 => GuestFeature::PreventHostIbs,
            7 => GuestFeature::BtbIsolation,
            8 => GuestFeature::VmplSss,
            9 => GuestFeature::SecureTsc,
            10 => GuestFeature::VmgExitParameter,
            11 => GuestFeature::IbsVirtualization,
            12 => GuestFeature::VmsaRegProt,
            _ => GuestFeature::SmtProtection,
        }
    }

    /// The bit this feature occupies in the mask.
    pub fn position(&self) -> (p: u64)
        ensures
            p == bit_position(*self),
            p < 64,
    {
        match self {
            GuestFeature::SnpActive => 0,
            GuestFeature::VTom => 1,
            GuestFeature::ReflectVc => 2,
            GuestFeature::RestrictedInjection => 3,
            GuestFeature::AlternateInjection => 4,
            GuestFeature::DebugSwap => 5,
            GuestFeature::PreventHostIbs => 6,
            GuestFeature::BtbIsolation => 7,
            GuestFeature::VmplSss => 8,
            GuestFeature::SecureTsc => 9,
            GuestFeature::VmgExitParameter => 10,
            GuestFeature::IbsVirtualization => 12,
            GuestFeature::VmsaRegProt => 14,
            GuestFeature::SmtProtection => 15,
        }
    }

    /// The human-readable name of this feature.
    pub fn name(&self) -> (s: &'static str)
        ensures
            s@ == feature_name(*self),
    {
        match self {
            GuestFeature::SnpActive => "SNPActive",
            GuestFeature::VTom => "vTOM",
            GuestFeature::ReflectVc => "ReflectVC",
            GuestFeature::RestrictedInjection => "RestrictedInjection",
            GuestFeature::AlternateInjection => "AlternateInjection",
            GuestFeature::DebugSwap => "DebugSwap",
            GuestFeature::PreventHostIbs => "PreventHostIBS",
            GuestFeature::BtbIsolation => "BTBIsolation",
            GuestFeature::VmplSss => "VmplSSS",
            GuestFeature::SecureTsc => "SecureTSC",
            GuestFeature::VmgExitParameter => "VmgexitParameter",
            GuestFeature::IbsVirtualization => "IbsVirtualization",
            GuestFeature::VmsaRegProt => "VmsaRegProt",
            GuestFeature::SmtProtection => "SmtProtection",
        }
    }
}

impl GuestFeatureSet {
    /// Whether feature `f` is set.
    pub fn contains(&self, f: GuestFeature) -> (r: bool)
        ensures
            r == has_feature(self.bits, f),
    {
        let p = f.position();
        (self.bits >> p) & 1u64 == 1u64
    }
}


/// The named features of a mask, in presentation order.
pub fn enabled_features(features: &GuestFeatureSet) -> (r: Vec<GuestFeature>)
    ensures
        r@ == enabled_list(features.bits),
{
    let mut r: Vec<GuestFeature> = Vec::new();
    let mut i: usize = FEATURE_COUNT;
    while i > 0
        invariant
            i <= FEATURE_COUNT,
            r@ == enabled_from(features.bits, i as int),
        decreases i,
    {
        i = i - 1;
        let f = GuestFeature::at(i);
        if features.contains(f) {
            let mut with_f: Vec<GuestFeature> = Vec::new();
            with_f.push(f);
            with_f.append(&mut r);
            r = with_f;
        }
        assert(r@ =~= enabled_from(features.bits, i as int));
    }
    r
}

/// The mask that holds exactly the listed features.
pub fn features_from_list(list: &Vec<GuestFeature>) -> (r: GuestFeatureSet)
    ensures
        r.bits == mask_of(list@),
{
    let mut bits: u64 = 0;
    let mut k: usize = list.len();
    assert(list@.skip(k as int) =~= Seq::<GuestFeature>::empty());
    while k > 0
        invariant
            k <= list.len(),
            bits == mask_of(list@.skip(k as int)),
        decreases k,
    {
        k = k - 1;
        let p = list[k].position();
        assert(list@.skip(k as int).drop_first() =~= list@.skip(k + 1));
        bits = (1u64 << p) | bits;
    }
    assert(list@.skip(0) =~= list@);
    GuestFeatureSet { bits }
}

/// The diagnostic rendering of a mask: the names of its features joined by
/// `", "`, or `None` when no named feature is set.
pub fn format_guest_features(features: &GuestFeatureSet) -> (s: String)
    ensures
        s@ == features_text(features.bits),
{
    let list = enabled_features(features);
    if list.len() == 0 {
        return String::from_str("None");
    }
    let ghost names = names_of(list@);
    let mut s = String::new();
    let mut i: usize = 0;
    assert(names.take(0) =~= Seq::<Seq<char>>::empty());
    while i < list.len()
        invariant
            i <= list.len(),
            names == names_of(list@),
            list@ == enabled_list(features.bits),
            s@ == join_with(names.take(i as int), ", "@),
        decreases list.len() - i,
    {
        if i != 0 {
            s.append(", ");
        }
        s.append(list[i].name());
        assert(names.take(i + 1).drop_last() =~= names.take(i as int));
        i = i + 1;
    }
    assert(names.take(list.len() as int) =~= names);
    s
}

proof fn lemma_or_set_bit(b: u64, m: u64, p: u64)
    requires
        p < 64,
        (b >> p) & 1u64 == 1u64,
    ensures
        (1u64 << p) | (b & m) == b & ((1u64 << p) | m),
{
    assert((b >> p) & 1u64 == 1u64 && p < 64 ==> (1u64 << p) | (b & m) == b & ((1u64 << p) | m))
        by (bit_vector);
}

proof fn lemma_or_clear_bit(b: u64, m: u64, p: u64)
    requires
        p < 64,
        (b >> p) & 1u64 == 0u64,
    ensures
        b & m == b & ((1u64 << p) | m),
{
    assert((b >> p) & 1u64 == 0u64 && p < 64 ==> b & m == b & ((1u64 << p) | m))
        by (bit_vector);
}

proof fn lemma_decode_enabled_from(bits: u64, i: int)
    requires
        0 <= i <= FEATURE_COUNT,
    ensures
        mask_of(enabled_from(bits, i)) == bits & known_from(i),
    decreases FEATURE_COUNT - i,
{
    if i == FEATURE_COUNT {
        assert(bits & 0u64 == 0u64) by (bit_vector);
    } else {
        lemma_decode_enabled_from(bits, i + 1);
        let f = feature_at(i);
        let p = bit_position(f);
        let rest = enabled_from(bits, i + 1);
        assert(p < 64);
        if has_feature(bits, f) {
            let l = seq![f] + rest;
            assert(l.drop_first() =~= rest);
            lemma_or_set_bit(bits, known_from(i + 1), p);
        } else {
            assert((bits >> p) & 1u64 != 1u64);
            assert((bits >> p) & 1u64 != 1u64 ==> (bits >> p) & 1u64 == 0u64) by (bit_vector);
            lemma_or_clear_bit(bits, known_from(i + 1), p);
        }
    }
}

proof fn lemma_known_mask()
    ensures
        known_from(0) == KNOWN_FEATURE_MASK,
{
    reveal_with_fuel(known_from, 15);
    assert((1u64 << 0u64) | ((1u64 << 1u64) | ((1u64 << 2u64) | ((1u64 << 3u64) | ((1u64 << 4u64)
        | ((1u64 << 5u64) | ((1u64 << 6u64) | ((1u64 << 7u64) | ((1u64 << 8u64) | ((1u64 << 9u64)
        | ((1u64 << 10u64) | ((1u64 << 12u64) | ((1u64 << 14u64) | ((1u64 << 15u64)
        | 0u64))))))))))))) == 0xD7FFu64) by (bit_vector);
}

/// Rendering a mask as its list of named features and reading the list back
/// gives the mask's named bits: every named bit survives, and only those.
/// A mask without reserved bits comes back unchanged.
pub proof fn lemma_feature_list_round_trip(bits: u64)
    ensures
        mask_of(enabled_list(bits)) == bits & KNOWN_FEATURE_MASK,
        bits & !KNOWN_FEATURE_MASK == 0 ==> mask_of(enabled_list(bits)) == bits,
{
    lemma_decode_enabled_from(bits, 0);
    lemma_known_mask();
    assert(bits & !0xD7FFu64 == 0 ==> bits & 0xD7FFu64 == bits) by (bit_vector);
}

/// No named feature is set exactly when the mask has no named bit, and the
/// rendering is then `None`.
pub proof fn lemma_empty_mask_renders_none(bits: u64)
    ensures
        (enabled_list(bits).len() == 0) == (bits & KNOWN_FEATURE_MASK == 0),
        bits & KNOWN_FEATURE_MASK == 0 ==> features_text(bits) == "None"@,
{
    lemma_feature_list_round_trip(bits);
    lemma_nonempty_mask(enabled_list(bits));
}

proof fn lemma_nonempty_mask(fs: Seq<GuestFeature>)
    ensures
        (fs.len() == 0) == (mask_of(fs) == 0),
{
    if fs.len() > 0 {
        let p = bit_position(fs[0]);
        let rest = mask_of(fs.drop_first());
        assert(p < 64 ==> (1u64 << p) | rest != 0u64) by (bit_vector);
    }
}


proof fn lemma_feature_name_injective(f: GuestFeature, g: GuestFeature)
    ensures
        feature_name(f) == feature_name(g) ==> f == g,
{
    reveal_strlit("SNPActive");
    reveal_strlit("vTOM");
    reveal_strlit("ReflectVC");
    reveal_strlit("RestrictedInjection");
    reveal_strlit("AlternateInjection");
    reveal_strlit("DebugSwap");
    reveal_strlit("PreventHostIBS");
    reveal_strlit("BTBIsolation");
    reveal_strlit("VmplSSS");
    reveal_strlit("SecureTSC");
    reveal_strlit("VmgexitParameter");
    reveal_strlit("IbsVirtualization");
    reveal_strlit("VmsaRegProt");
    reveal_strlit("SmtProtection");
    if feature_name(f) == feature_name(g) {
        assert(feature_name(f).len() == feature_name(g).len());
        assert(feature_name(f)[0] == feature_name(g)[0]);
        assert(feature_name(f)[1] == feature_name(g)[1]);
    }
}


/// The feature whose name is `n`, if any.
pub open spec fn feature_named(n: Seq<char>) -> Option<GuestFeature> {
    if exists|f: GuestFeature| feature_name(f) == n {
        Some(choose|f: GuestFeature| feature_name(f) == n)
    } else {
        None
    }
}

/// The mask of a list of feature names, or `None` when one of them names no
/// feature.
pub open spec fn mask_of_names(ns: Seq<Seq<char>>) -> Option<u64>
    decreases ns.len(),
{
    if ns.len() == 0 {
        Some(0)
    } else {
        match (feature_named(ns[0]), mask_of_names(ns.drop_first())) {
            (Some(f), Some(m)) => Some(feature_mask(f) | m),
            _ => None,
        }
    }
}

proof fn lemma_feature_named(f: GuestFeature)
    ensures
        feature_named(feature_name(f)) == Some(f),
{
    let g = choose|g: GuestFeature| feature_name(g) == feature_name(f);
    lemma_feature_name_injective(f, g);
}

proof fn lemma_every_feature_has_a_position(f: GuestFeature)
    ensures
        exists|i: int| 0 <= i < FEATURE_COUNT && feature_at(i) == f,
{
    match f {
        GuestFeature::SnpActive => assert(feature_at(0) == f),
        GuestFeature::VTom => assert(feature_at(1) == f),
        GuestFeature::ReflectVc => assert(feature_at(2) == f),
        GuestFeature::RestrictedInjection => assert(feature_at(3) == f),
        GuestFeature::AlternateInjection => assert(feature_at(4) == f),
        GuestFeature::DebugSwap => assert(feature_at(5) == f),
        GuestFeature::PreventHostIbs => assert(feature_at(6) == f),
        GuestFeature::BtbIsolation => assert(feature_at(7) == f),
        GuestFeature::VmplSss => assert(feature_at(8) == f),
        GuestFeature::SecureTsc => assert(feature_at(9) == f),
        GuestFeature::VmgExitParameter => assert(feature_at(10) == f),
        GuestFeature::IbsVirtualization => assert(feature_at(11) == f),
        GuestFeature::VmsaRegProt => assert(feature_at(12) == f),
        GuestFeature::SmtProtection => assert(feature_at(13) == f),
    }
}

/// Whether two strings hold the same characters.
fn same_text(a: &str, b: &str) -> (r: bool)
    ensures
        r == (a@ == b@),
{
    let n = a.unicode_len();
    if n != b.unicode_len() {
        return false;
    }
    let mut i: usize = 0;
    while i < n
        invariant
            n == a@.len() == b@.len(),
            i <= n,
            forall|j: int| 0 <= j < i ==> a@[j] == b@[j],
        decreases n - i,
    {
        if a.get_char(i) != b.get_char(i) {
            return false;
        }
        i = i + 1;
    }
    assert(a@ =~= b@);
    true
}

impl GuestFeature {
    /// The feature called `name`, if any.
    pub fn from_name(name: &str) -> (r: Option<GuestFeature>)
        ensures
            r == feature_named(name@),
    {
        let mut i: usize = 0;
        while i < FEATURE_COUNT
            invariant
                i <= FEATURE_COUNT,
                forall|j: int| 0 <= j < i ==> feature_name(#[trigger] feature_at(j)) != name@,
            decreases FEATURE_COUNT - i,
        {
            let f = GuestFeature::at(i);
            if same_text(name, f.name()) {
                proof {
                    lemma_feature_named(f);
                }
                return Some(f);
            }
            i = i + 1;
        }
        proof {
            assert forall|f: GuestFeature| feature_name(f) != name@ by {
                lemma_every_feature_has_a_position(f);
            }
        }
        None
    }
}

proof fn lemma_mask_of_names_suffix(ns: Seq<Seq<char>>, k: int)
    requires
        0 <= k <= ns.len(),
        mask_of_names(ns.skip(k)) is None,
    ensures
        mask_of_names(ns) is None,
    decreases k,
{
    if k > 0 {
        assert(ns.skip(k - 1).drop_first() =~= ns.skip(k));
        lemma_mask_of_names_suffix(ns, k - 1);
    } else {
        assert(ns.skip(0) =~= ns);
    }
}

/// The mask of a list of feature names: `None` when one of them names no
/// feature.
pub fn features_from_names(names: &Vec<String>) -> (r: Option<GuestFeatureSet>)
    ensures
        r matches Some(set) ==> mask_of_names(names@.map_values(|s: String| s@)) == Some(set.bits),
        r is None ==> mask_of_names(names@.map_values(|s: String| s@)) is None,
{
    let ghost views = names@.map_values(|s: String| s@);
    let mut bits: u64 = 0;
    let mut k: usize = names.len();
    assert(views.skip(k as int) =~= Seq::<Seq<char>>::empty());
    while k > 0
        invariant
            k <= names.len(),
            views == names@.map_values(|s: String| s@),
            mask_of_names(views.skip(k as int)) == Some(bits),
        decreases k,
    {
        k = k - 1;
        assert(views.skip(k as int).drop_first() =~= views.skip(k + 1));
        assert(views.skip(k as int)[0] == names@[k as int]@);
        match GuestFeature::from_name(names[k].as_str()) {
            Some(f) => {
                let p = f.position();
                bits = (1u64 << p) | bits;
            },
            None => {
                proof {
                    lemma_mask_of_names_suffix(views, k as int);
                }
                return None;
            },
        }
    }
    assert(views.skip(0) =~= views);
    Some(GuestFeatureSet { bits })
}

proof fn lemma_names_decode(fs: Seq<GuestFeature>)
    ensures
        mask_of_names(names_of(fs)) == Some(mask_of(fs)),
    decreases fs.len(),
{
    if fs.len() > 0 {
        lemma_names_decode(fs.drop_first());
        assert(names_of(fs).drop_first() =~= names_of(fs.drop_first()));
        lemma_feature_named(fs[0]);
    }
}

/// Rendering a mask as the names of its features and reading the names back
/// gives the mask's named bits; a mask without reserved bits comes back
/// unchanged.
pub proof fn lemma_feature_names_round_trip(bits: u64)
    ensures
        mask_of_names(names_of(enabled_list(bits))) == Some(bits & KNOWN_FEATURE_MASK),
        bits & !KNOWN_FEATURE_MASK == 0 ==> mask_of_names(names_of(enabled_list(bits))) == Some(
            bits,
        ),
{
    lemma_names_decode(enabled_list(bits));
    lemma_feature_list_round_trip(bits);
}

/// The names of the features set in a mask, in presentation order.
pub fn feature_names(features: &GuestFeatureSet) -> (r: Vec<String>)
    ensures
        r@.map_values(|s: String| s@) == names_of(enabled_list(features.bits)),
{
    let list = enabled_features(features);
    let mut r: Vec<String> = Vec::new();
    let mut i: usize = 0;
    while i < list.len()
        invariant
            i <= list.len(),
            list@ == enabled_list(features.bits),
            r@.len() == i,
            forall|j: int| 0 <= j < i ==> #[trigger] r@[j]@ == feature_name(list@[j]),
        decreases list.len() - i,
    {
        r.push(String::from_str(list[i].name()));
        i = i + 1;
    }
    assert(r@.map_values(|s: String| s@) =~= names_of(list@));
    r
}

} // verus!
