//! IPC feature flags and their negotiation between client and bridge.
use vstd::prelude::*;

use crate::text::{
    all_ascii, ascii_lower, ascii_lower_seq, ascii_lower_vec, chars_of, chars_all_ascii, is_white_space, lemma_trim_ends,
    lemma_trim_fixed, str_eq, string_from_chars, to_lowercase, trim, trim_str, unicode_lowercase,
};

verus! {

/// A feature that the IPC bridge may offer.
#[derive(Debug, Clone, PartialEq, Eq, Hash)]
pub enum FeatureFlag {
    /// "assets.basic": path/guid conversion, import, refresh.
    AssetsBasic,
    /// "prefabs.basic": prefab create/update/overrides.
    PrefabsBasic,
    /// "build.min": minimal player build with operation events.
    BuildMin,
    /// "events.log": Unity log events.
    EventsLog,
    /// "ops.progress": progress events of long-running operations.
    OpsProgress,
    /// "assets.advanced": asset streaming and dependencies.
    AssetsAdvanced,
    /// "build.full": full build pipeline with addressables.
    BuildFull,
    /// "events.full": detailed editor events.
    EventsFull,
    /// Any other feature name.
    Unknown(String),
}

/// Mathematical model of a feature flag.
pub enum FlagModel {
    AssetsBasic,
    PrefabsBasic,
    BuildMin,
    EventsLog,
    OpsProgress,
    AssetsAdvanced,
    BuildFull,
    EventsFull,
    Unknown(Seq<char>),
}

impl View for FeatureFlag {
    type V = FlagModel;

    open spec fn view(&self) -> FlagModel {
        match self {
            FeatureFlag::AssetsBasic => FlagModel::AssetsBasic,
            FeatureFlag::PrefabsBasic => FlagModel::PrefabsBasic,
            FeatureFlag::BuildMin => FlagModel::BuildMin,
            FeatureFlag::EventsLog => FlagModel::EventsLog,
            FeatureFlag::OpsProgress => FlagModel::OpsProgress,
            FeatureFlag::AssetsAdvanced => FlagModel::AssetsAdvanced,
            FeatureFlag::BuildFull => FlagModel::BuildFull,
            FeatureFlag::EventsFull => FlagModel::EventsFull,
            FeatureFlag::Unknown(s) => FlagModel::Unknown(s@),
        }
    }
}

/// The flag that a feature name stands for.
pub open spec fn flag_of_name(s: Seq<char>) -> FlagModel {
    if s == "assets.basic"@ {
        FlagModel::AssetsBasic
    } else if s == "prefabs.basic"@ {
        FlagModel::PrefabsBasic
    } else if s == "build.min"@ {
        FlagModel::BuildMin
    } else if s == "events.log"@ {
        FlagModel::EventsLog
    } else if s == "ops.progress"@ {
        FlagModel::OpsProgress
    } else if s == "assets.advanced"@ {
        FlagModel::AssetsAdvanced
    } else if s == "build.full"@ {
        FlagModel::BuildFull
    } else if s == "events.full"@ {
        FlagModel::EventsFull
    } else {
        FlagModel::Unknown(s)
    }
}

/// The name under which a flag is sent on the wire.
pub open spec fn name_of_flag(f: FlagModel) -> Seq<char> {
    match f {
        FlagModel::AssetsBasic => "assets.basic"@,
        FlagModel::PrefabsBasic => "prefabs.basic"@,
        FlagModel::BuildMin => "build.min"@,
        FlagModel::EventsLog => "events.log"@,
        FlagModel::OpsProgress => "ops.progress"@,
        FlagModel::AssetsAdvanced => "assets.advanced"@,
        FlagModel::BuildFull => "build.full"@,
        FlagModel::EventsFull => "events.full"@,
        FlagModel::Unknown(s) => s,
    }
}

/// How a name the client receives is normalised: trimmed, then lower-cased
/// (an ASCII name by ASCII letters alone, which Unicode lower-cases the
/// same way).
pub open spec fn normalized_name(s: Seq<char>) -> Seq<char> {
    let t = trim(s);
    if all_ascii(t) {
        ascii_lower_seq(t)
    } else {
        unicode_lowercase(t)
    }
}

/// The flags the client asks for in its hello, in order.
pub open spec fn client_flags() -> Seq<FlagModel> {
    seq![
        FlagModel::AssetsBasic,
        FlagModel::PrefabsBasic,
        FlagModel::BuildMin,
        FlagModel::EventsLog,
        FlagModel::OpsProgress,
    ]
}

impl FeatureFlag {
    /// Parses a feature name; names that are not known give `Unknown`.
    pub fn from_string(s: &str) -> (r: FeatureFlag)
        ensures
            r@ == flag_of_name(s@),
    {
        if str_eq(s, "assets.basic") {
            FeatureFlag::AssetsBasic
        } else if str_eq(s, "prefabs.basic") {
            FeatureFlag::PrefabsBasic
        } else if str_eq(s, "build.min") {
            FeatureFlag::BuildMin
        } else if str_eq(s, "events.log") {
            FeatureFlag::EventsLog
        } else if str_eq(s, "ops.progress") {
            FeatureFlag::OpsProgress
        } else if str_eq(s, "assets.advanced") {
            FeatureFlag::AssetsAdvanced
        } else if str_eq(s, "build.full") {
            FeatureFlag::BuildFull
        } else if str_eq(s, "events.full") {
            FeatureFlag::EventsFull
        } else {
            FeatureFlag::Unknown(String::from_str(s))
        }
    }

    /// The flags this client supports, in the order it announces them.
    pub fn is_supported_by_client() -> (r: Vec<FeatureFlag>)
        ensures
            r@.len() == 5,
            forall|i: int| 0 <= i < 5 ==> (#[trigger] r@[i])@ == client_flags()[i],
    {
        let mut r: Vec<FeatureFlag> = Vec::new();
        r.push(FeatureFlag::AssetsBasic);
        r.push(FeatureFlag::PrefabsBasic);
        r.push(FeatureFlag::BuildMin);
        r.push(FeatureFlag::EventsLog);
        r.push(FeatureFlag::OpsProgress);
        r
    }

    /// Normalises a feature name: trims white space, then lower-cases.
    pub fn normalize_string(s: &str) -> (r: String)
        ensures
            r@ == normalized_name(s@),
    {
        let t = trim_str(s);
        let cs = chars_of(t.as_str());
        if chars_all_ascii(&cs) {
            string_from_chars(&ascii_lower_vec(&cs))
        } else {
            to_lowercase(t.as_str())
        }
    }

    /// The wire name of this flag.
    pub fn display_string(&self) -> (r: String)
        ensures
            r@ == name_of_flag(self@),
    {
        match self {
            FeatureFlag::AssetsBasic => String::from_str("assets.basic"),
            FeatureFlag::PrefabsBasic => String::from_str("prefabs.basic"),
            FeatureFlag::BuildMin => String::from_str("build.min"),
            FeatureFlag::EventsLog => String::from_str("events.log"),
            FeatureFlag::OpsProgress => String::from_str("ops.progress"),
            FeatureFlag::AssetsAdvanced => String::from_str("assets.advanced"),
            FeatureFlag::BuildFull => String::from_str("build.full"),
            FeatureFlag::EventsFull => String::from_str("events.full"),
            FeatureFlag::Unknown(s) => s.clone(),
        }
    }

    /// Whether two flags are the same flag.
    pub fn same_as(&self, other: &FeatureFlag) -> (r: bool)
        ensures
            r == (self@ == other@),
    {
        match (self, other) {
            (FeatureFlag::AssetsBasic, FeatureFlag::AssetsBasic) => true,
            (FeatureFlag::PrefabsBasic, FeatureFlag::PrefabsBasic) => true,
            (FeatureFlag::BuildMin, FeatureFlag::BuildMin) => true,
            (FeatureFlag::EventsLog, FeatureFlag::EventsLog) => true,
            (FeatureFlag::OpsProgress, FeatureFlag::OpsProgress) => true,
            (FeatureFlag::AssetsAdvanced, FeatureFlag::AssetsAdvanced) => true,
            (FeatureFlag::BuildFull, FeatureFlag::BuildFull) => true,
            (FeatureFlag::EventsFull, FeatureFlag::EventsFull) => true,
            (FeatureFlag::Unknown(a), FeatureFlag::Unknown(b)) => str_eq(a.as_str(), b.as_str()),
            _ => false,
        }
    }

    /// A copy of this flag.
    pub fn copy_flag(&self) -> (r: FeatureFlag)
        ensures
            r@ == self@,
    {
        match self {
            FeatureFlag::AssetsBasic => FeatureFlag::AssetsBasic,
            FeatureFlag::PrefabsBasic => FeatureFlag::PrefabsBasic,
            FeatureFlag::BuildMin => FeatureFlag::BuildMin,
            FeatureFlag::EventsLog => FeatureFlag::EventsLog,
            FeatureFlag::OpsProgress => FeatureFlag::OpsProgress,
            FeatureFlag::AssetsAdvanced => FeatureFlag::AssetsAdvanced,
            FeatureFlag::BuildFull => FeatureFlag::BuildFull,
            FeatureFlag::EventsFull => FeatureFlag::EventsFull,
            FeatureFlag::Unknown(s) => FeatureFlag::Unknown(s.clone()),
        }
    }

    /// Whether this is an `Unknown` flag.
    pub fn is_unknown(&self) -> (r: bool)
        ensures
            r == (self@ is Unknown),
    {
        match self {
            FeatureFlag::Unknown(_) => true,
            _ => false,
        }
    }
}

/// A set of feature flags.
#[derive(Debug, Clone)]
pub struct FeatureSet {
    features: Vec<FeatureFlag>,
}

/// The models of the flags in `v`.
pub open spec fn flag_models(v: Seq<FeatureFlag>) -> Seq<FlagModel> {
    v.map_values(|f: FeatureFlag| f@)
}

impl View for FeatureSet {
    type V = Set<FlagModel>;

    closed spec fn view(&self) -> Set<FlagModel> {
        flag_models(self.features@).to_set()
    }
}

impl FeatureSet {
    /// No flag is held twice.
    pub closed spec fn wf(&self) -> bool {
        flag_models(self.features@).no_duplicates()
    }

    /// The flags of the set, in the order they were added.
    pub closed spec fn members(&self) -> Seq<FlagModel> {
        flag_models(self.features@)
    }

    /// The view is the set of the members.
    pub proof fn lemma_members(&self)
        ensures
            self@ == self.members().to_set(),
            self.wf() <==> self.members().no_duplicates(),
    {
    }

    /// Number of flags in the set.
    pub closed spec fn size(&self) -> nat {
        self.features@.len()
    }

    proof fn lemma_view_contains(&self, f: FlagModel)
        ensures
            self@.contains(f) <==> exists|i: int|
                0 <= i < self.features@.len() && (#[trigger] self.features@[i])@ == f,
    {
        let m = flag_models(self.features@);
        if self@.contains(f) {
            let i = choose|i: int| 0 <= i < m.len() && m[i] == f;
            assert(self.features@[i]@ == f);
        }
        if exists|i: int| 0 <= i < self.features@.len() && (#[trigger] self.features@[i])@ == f {
            let i = choose|i: int|
                0 <= i < self.features@.len() && (#[trigger] self.features@[i])@ == f;
            assert(m[i] == f);
        }
    }

    /// The empty set.
    pub fn new() -> (r: FeatureSet)
        ensures
            r.wf(),
            r@ == Set::<FlagModel>::empty(),
            r.members() == Seq::<FlagModel>::empty(),
    {
        let r = FeatureSet { features: Vec::new() };
        assert(flag_models(r.features@) =~= Seq::<FlagModel>::empty());
        r
    }

    /// Whether `feature` is in the set.
    pub fn contains(&self, feature: &FeatureFlag) -> (r: bool)
        ensures
            r == self@.contains(feature@),
    {
        proof {
            self.lemma_view_contains(feature@);
        }
        let mut i: usize = 0;
        while i < self.features.len()
            invariant
                i <= self.features@.len(),
                forall|k: int| 0 <= k < i ==> (#[trigger] self.features@[k])@ != feature@,
            decreases self.features.len() - i,
        {
            if self.features[i].same_as(feature) {
                proof {
                    self.lemma_view_contains(feature@);
                }
                return true;
            }
            i = i + 1;
        }
        false
    }

    /// Adds `feature` to the set.
    pub fn insert(&mut self, feature: FeatureFlag)
        requires
            old(self).wf(),
        ensures
            final(self).wf(),
            final(self)@ == old(self)@.insert(feature@),
            old(self)@.contains(feature@) ==> final(self).members() == old(self).members(),
            !old(self)@.contains(feature@) ==> final(self).members() == old(self).members().push(feature@),
    {
        if self.contains(&feature) {
            assert(self@.insert(feature@) =~= self@);
            return;
        }
        let ghost old_m = flag_models(self.features@);
        self.features.push(feature);
        proof {
            let m = flag_models(self.features@);
            assert(m =~= old_m.push(feature@));
            assert(!old_m.contains(feature@));
            assert(m.to_set() =~= old_m.to_set().insert(feature@)) by {
                assert forall|x: FlagModel| m.contains(x) <==> old_m.contains(x) || x == feature@ by {
                    if m.contains(x) {
                        let i = choose|i: int| 0 <= i < m.len() && m[i] == x;
                        if i < old_m.len() {
                            assert(old_m[i] == x);
                        }
                    }
                    if old_m.contains(x) {
                        let i = choose|i: int| 0 <= i < old_m.len() && old_m[i] == x;
                        assert(m[i] == x);
                    }
                    if x == feature@ {
                        assert(m[old_m.len() as int] == x);
                    }
                }
            }
            assert forall|i: int, j: int| 0 <= i < j < m.len() implies m[i] != m[j] by {
                if j == old_m.len() {
                    assert(old_m[i] == m[i]);
                } else {
                    assert(old_m[i] == m[i] && old_m[j] == m[j]);
                }
            }
        }
    }

    /// The set of flags that `strings` name, after normalising each name;
    /// names that stand for no known flag are left out.
    pub fn from_strings(strings: &[String]) -> (r: FeatureSet)
        ensures
            r.wf(),
            forall|f: FlagModel| #[trigger] r@.contains(f) <==> !(f is Unknown) && exists|i: int|
                0 <= i < strings@.len() && f == flag_of_name(normalized_name(strings@[i]@)),
    {
        let mut r = FeatureSet::new();
        let mut i: usize = 0;
        while i < strings.len()
            invariant
                i <= strings@.len(),
                r.wf(),
                forall|f: FlagModel| #[trigger] r@.contains(f) <==> !(f is Unknown) && exists|k: int|
                    0 <= k < i && f == flag_of_name(normalized_name(strings@[k]@)),
            decreases strings@.len() - i,
        {
            let name = FeatureFlag::normalize_string(strings[i].as_str());
            let flag = FeatureFlag::from_string(name.as_str());
            if !flag.is_unknown() {
                let ghost fm = flag@;
                r.insert(flag);
                assert forall|f: FlagModel| #[trigger] r@.contains(f) <==> !(f is Unknown) && exists|k: int|
                    0 <= k < i + 1 && f == flag_of_name(normalized_name(strings@[k]@)) by {
                    if f == fm {
                        assert(f == flag_of_name(normalized_name(strings@[i as int]@)));
                    }
                    if exists|k: int| 0 <= k < i + 1 && f == flag_of_name(normalized_name(strings@[k]@)) {
                        let k = choose|k: int| 0 <= k < i + 1 && f == flag_of_name(normalized_name(strings@[k]@));
                        if k < i {
                        } else {
                            assert(f == fm);
                        }
                    }
                }
            } else {
                assert forall|f: FlagModel| #[trigger] r@.contains(f) <==> !(f is Unknown) && exists|k: int|
                    0 <= k < i + 1 && f == flag_of_name(normalized_name(strings@[k]@)) by {
                    if !(f is Unknown) && exists|k: int| 0 <= k < i + 1 && f == flag_of_name(normalized_name(strings@[k]@)) {
                        let k = choose|k: int| 0 <= k < i + 1 && f == flag_of_name(normalized_name(strings@[k]@));
                        if k == i {
                            assert(f == flag@);
                        }
                        assert(exists|k: int| 0 <= k < i && f == flag_of_name(normalized_name(strings@[k]@)));
                    }
                }
            }
            i = i + 1;
        }
        r
    }

    /// The wire names of the flags in the set, in the set's own order.
    pub fn to_strings(&self) -> (r: Vec<String>)
        ensures
            r@.map_values(|t: String| t@) == self.members().map_values(|f: FlagModel| name_of_flag(f)),
    {
        let mut r: Vec<String> = Vec::new();
        let mut i: usize = 0;
        while i < self.features.len()
            invariant
                i <= self.features@.len(),
                r@.len() == i,
                forall|k: int| 0 <= k < i ==> (#[trigger] r@[k])@ == name_of_flag(self.features@[k]@),
            decreases self.features.len() - i,
        {
            let s = self.features[i].display_string();
            r.push(s);
            i = i + 1;
        }
        assert(r@.map_values(|t: String| t@) =~= self.members().map_values(|f: FlagModel| name_of_flag(f)));
        r
    }

    /// The flags held by both sets.
    pub fn intersect(&self, other: &FeatureSet) -> (r: FeatureSet)
        requires
            self.wf(),
        ensures
            r.wf(),
            r@ == self@.intersect(other@),
    {
        let mut r = FeatureSet::new();
        let mut i: usize = 0;
        while i < self.features.len()
            invariant
                i <= self.features@.len(),
                r.wf(),
                forall|f: FlagModel| #[trigger] r@.contains(f) <==> other@.contains(f) && exists|k: int|
                    0 <= k < i && (#[trigger] self.features@[k])@ == f,
            decreases self.features.len() - i,
        {
            let f = &self.features[i];
            if other.contains(f) {
                let ghost fm = f@;
                r.insert(f.copy_flag());
                assert forall|g: FlagModel| #[trigger] r@.contains(g) <==> other@.contains(g) && exists|k: int|
                    0 <= k < i + 1 && (#[trigger] self.features@[k])@ == g by {
                    if g == fm {
                        assert(self.features@[i as int]@ == g);
                    }
                    if exists|k: int| 0 <= k < i + 1 && (#[trigger] self.features@[k])@ == g {
                        let k = choose|k: int| 0 <= k < i + 1 && (#[trigger] self.features@[k])@ == g;
                        if k == i {
                            assert(g == fm);
                        }
                    }
                }
            } else {
                assert forall|g: FlagModel| #[trigger] r@.contains(g) <==> other@.contains(g) && exists|k: int|
                    0 <= k < i + 1 && (#[trigger] self.features@[k])@ == g by {
                    if other@.contains(g) && exists|k: int| 0 <= k < i + 1 && (#[trigger] self.features@[k])@ == g {
                        let k = choose|k: int| 0 <= k < i + 1 && (#[trigger] self.features@[k])@ == g;
                        if k == i {
                            assert(false);
                        }
                        assert(exists|k: int| 0 <= k < i && (#[trigger] self.features@[k])@ == g);
                    }
                }
            }
            i = i + 1;
        }
        proof {
            assert forall|g: FlagModel| #[trigger] r@.contains(g) <==> self@.intersect(other@).contains(g) by {
                self.lemma_view_contains(g);
            }
            assert(r@ =~= self@.intersect(other@));
        }
        r
    }

    /// The flags this client supports.
    pub fn supported_by_client() -> (r: FeatureSet)
        ensures
            r.wf(),
            r@ == client_flags().to_set(),
            r.members() == client_flags(),
    {
        let flags = FeatureFlag::is_supported_by_client();
        let mut r = FeatureSet::new();
        let mut i: usize = 0;
        while i < flags.len()
            invariant
                flags@.len() == 5,
                forall|k: int| 0 <= k < 5 ==> (#[trigger] flags@[k])@ == client_flags()[k],
                i <= 5,
                r.wf(),
                r@ == client_flags().take(i as int).to_set(),
                r.members() == client_flags().take(i as int),
            decreases 5 - i,
        {
            assert(!r.members().contains(client_flags()[i as int])) by {
                if r.members().contains(client_flags()[i as int]) {
                    let k = choose|k: int| 0 <= k < r.members().len() && r.members()[k] == client_flags()[i as int];
                    assert(client_flags()[k] == client_flags()[i as int]);
                }
            }
            proof {
                r.lemma_members();
            }
            r.insert(flags[i].copy_flag());
            assert(client_flags().take(i + 1) =~= client_flags().take(i as int).push(client_flags()[i as int]));
            proof {
                client_flags().take(i as int).lemma_push_to_set_commute(client_flags()[i as int]);
            }
            i = i + 1;
        }
        assert(client_flags().take(5) =~= client_flags());
        assert(r.members() == client_flags());
        r
    }
}

impl Default for FeatureSet {
    fn default() -> (r: FeatureSet)
        ensures
            r.wf(),
            r@ == Set::<FlagModel>::empty(),
    {
        FeatureSet::new()
    }
}

/// Printing a parsed name gives the name back.
pub proof fn law_name_of_flag_of_name(s: Seq<char>)
    ensures
        name_of_flag(flag_of_name(s)) == s,
{
}

/// Parsing the name of a flag gives the flag back, for every flag that is
/// not an `Unknown` spelling one of the known names.
pub proof fn law_flag_of_name_of_flag(f: FlagModel)
    requires
        f is Unknown ==> flag_of_name(f->Unknown_0) is Unknown,
    ensures
        flag_of_name(name_of_flag(f)) == f,
{
    reveal_strlit("assets.basic");
    reveal_strlit("prefabs.basic");
    reveal_strlit("build.min");
    reveal_strlit("events.log");
    reveal_strlit("ops.progress");
    reveal_strlit("assets.advanced");
    reveal_strlit("build.full");
    reveal_strlit("events.full");
    let names = seq![
        "assets.basic"@, "prefabs.basic"@, "build.min"@, "events.log"@,
        "ops.progress"@, "assets.advanced"@, "build.full"@, "events.full"@,
    ];
    assert forall|i: int, j: int| 0 <= i < j < 8 implies names[i] != names[j] by {
        assert(names[i][0] != names[j][0] || names[i].len() != names[j].len()
            || names[i][1] != names[j][1]);
    }
    match f {
        FlagModel::Unknown(s) => {}
        _ => {
            assert(names[0] == "assets.basic"@);
            assert(names[1] == "prefabs.basic"@);
            assert(names[2] == "build.min"@);
            assert(names[3] == "events.log"@);
            assert(names[4] == "ops.progress"@);
            assert(names[5] == "assets.advanced"@);
            assert(names[6] == "build.full"@);
            assert(names[7] == "events.full"@);
        }
    }
}

/// The flags negotiated with a bridge are a subset of what the client
/// offers and of what the bridge accepted, and intersection is symmetric in
/// its result.
pub proof fn law_intersect_symmetric(a: Set<FlagModel>, b: Set<FlagModel>)
    ensures
        a.intersect(b) == b.intersect(a),
        a.intersect(b).subset_of(a),
        a.intersect(b).subset_of(b),
{
    assert(a.intersect(b) =~= b.intersect(a));
}


/// On an ASCII name, normalising trims it and lower-cases its ASCII
/// letters, and normalising it again changes nothing.
pub proof fn law_normalize_ascii(s: Seq<char>)
    requires
        all_ascii(s),
    ensures
        normalized_name(s) == ascii_lower_seq(trim(s)),
        normalized_name(normalized_name(s)) == normalized_name(s),
{
    let t = trim(s);
    crate::text::lemma_trim_ascii(s);
    let x = ascii_lower_seq(t);
    assert(all_ascii(x));
    if t.len() > 0 {
        lemma_trim_ends(s);
        assert(x[0] == ascii_lower(t[0]));
        assert(x.last() == ascii_lower(t.last()));
        lemma_trim_fixed(x);
    } else {
        assert(x.len() == 0);
        assert(trim(x) =~= x);
    }
    assert(ascii_lower_seq(x) =~= x);
}

} // verus!
