use vstd::prelude::*;
use crate::platform::Platform;
use crate::text::{cat, owned, same};

verus! {

/// One key/value assertion of a bundle descriptor.
pub struct ManifestEntry {
    pub key: String,
    /// The property-list type of the value, such as `string` or `bool`.
    pub kind: String,
    pub value: String,
    /// Whether the value is written between double quotes.
    pub quoted: bool,
}

pub struct EntryView {
    pub key: Seq<char>,
    pub kind: Seq<char>,
    pub value: Seq<char>,
    pub quoted: bool,
}

impl View for ManifestEntry {
    type V = EntryView;

    open spec fn view(&self) -> EntryView {
        EntryView { key: self.key@, kind: self.kind@, value: self.value@, quoted: self.quoted }
    }
}

pub open spec fn entries_view(v: Seq<ManifestEntry>) -> Seq<EntryView> {
    v.map_values(|e: ManifestEntry| e@)
}

/// The namespace the bundle identifier lives in.
pub open spec fn bundle_namespace() -> Seq<char> {
    "io.github.shff.ge"@
}

/// The bundle identifier, `<namespace>.<app name>`.
pub open spec fn bundle_id_spec() -> Seq<char> {
    bundle_namespace() + "."@ + "App"@
}

pub fn bundle_id() -> (r: String)
    ensures
        r@ == bundle_id_spec(),
{
    let r = owned("io.github.shff.ge.App");
    proof {
        reveal_strlit("io.github.shff.ge.App");
        reveal_strlit("io.github.shff.ge");
        reveal_strlit(".");
        reveal_strlit("App");
        assert(r@ =~= bundle_id_spec());
    }
    r
}

pub open spec fn ev(key: Seq<char>, kind: Seq<char>, value: Seq<char>, quoted: bool) -> EntryView {
    EntryView { key, kind, value, quoted }
}

/// The assertions each platform's descriptor receives, in order.
pub open spec fn manifest_spec(p: Platform) -> Seq<EntryView> {
    match p {
        Platform::MacOs => seq![
            ev("CFBundleDisplayName"@, "string"@, "App"@, true),
            ev("CFBundleIdentifier"@, "string"@, bundle_id_spec(), true),
        ],
        Platform::Ios => seq![
            ev("CFBundleDevelopmentRegion"@, "string"@, "en"@, true),
            ev("CFBundleDisplayName"@, "string"@, "App"@, true),
            ev("CFBundleExecutable"@, "string"@, "App"@, true),
            ev("CFBundleIdentifier"@, "string"@, bundle_id_spec(), true),
            ev("CFBundleName"@, "string"@, "App"@, true),
            ev("CFBundleInfoDictionaryVersion"@, "string"@, "6.0"@, true),
            ev("CFBundlePackageType"@, "string"@, "APPL"@, true),
            ev("CFBundleShortVersionString"@, "string"@, "1.0.0"@, true),
            ev("CFBundleSignature"@, "string"@, "????"@, true),
            ev("CFBundleVersion"@, "string"@, "1"@, true),
            ev("LSRequiresIPhoneOS"@, "bool"@, "true"@, true),
            ev("UISupportedInterfaceOrientations.0"@, "string"@, "UIInterfaceOrientationLandscapeLeft"@, false),
            ev("UISupportedInterfaceOrientations.1"@, "string"@, "UIInterfaceOrientationLandscapeRight"@, false),
        ],
        _ => Seq::empty(),
    }
}

fn push_entry(v: &mut Vec<ManifestEntry>, key: &str, kind: &str, value: String, quoted: bool)
    ensures
        entries_view(final(v)@) == entries_view(old(v)@).push(ev(key@, kind@, value@, quoted)),
{
    v.push(ManifestEntry { key: owned(key), kind: owned(kind), value, quoted });
    proof {
        assert(entries_view(final(v)@) =~= entries_view(old(v)@).push(ev(key@, kind@, value@, quoted)));
    }
}

pub fn manifest_entries(p: Platform) -> (r: Vec<ManifestEntry>)
    ensures
        entries_view(r@) == manifest_spec(p),
{
    let mut v: Vec<ManifestEntry> = Vec::new();
    proof {
        assert(entries_view(v@) =~= Seq::empty());
    }
    match p {
        Platform::MacOs => {
            push_entry(&mut v, "CFBundleDisplayName", "string", owned("App"), true);
            push_entry(&mut v, "CFBundleIdentifier", "string", bundle_id(), true);
        },
        Platform::Ios => {
            push_entry(&mut v, "CFBundleDevelopmentRegion", "string", owned("en"), true);
            push_entry(&mut v, "CFBundleDisplayName", "string", owned("App"), true);
            push_entry(&mut v, "CFBundleExecutable", "string", owned("App"), true);
            push_entry(&mut v, "CFBundleIdentifier", "string", bundle_id(), true);
            push_entry(&mut v, "CFBundleName", "string", owned("App"), true);
            push_entry(&mut v, "CFBundleInfoDictionaryVersion", "string", owned("6.0"), true);
            push_entry(&mut v, "CFBundlePackageType", "string", owned("APPL"), true);
            push_entry(&mut v, "CFBundleShortVersionString", "string", owned("1.0.0"), true);
            push_entry(&mut v, "CFBundleSignature", "string", owned("????"), true);
            push_entry(&mut v, "CFBundleVersion", "string", owned("1"), true);
            push_entry(&mut v, "LSRequiresIPhoneOS", "bool", owned("true"), true);
            push_entry(&mut v, "UISupportedInterfaceOrientations.0", "string",
                owned("UIInterfaceOrientationLandscapeLeft"), false);
            push_entry(&mut v, "UISupportedInterfaceOrientations.1", "string",
                owned("UIInterfaceOrientationLandscapeRight"), false);
        },
        _ => {},
    }
    proof {
        assert(entries_view(v@) =~= manifest_spec(p));
    }
    v
}

/// The text handed to the property-list editor: `Add :<key> <kind> <value>`,
/// the value in double quotes where the entry says so.
pub open spec fn command_spec(e: EntryView) -> Seq<char> {
    "Add :"@ + e.key + " "@ + e.kind + " "@ + if e.quoted {
        "\""@ + e.value + "\""@
    } else {
        e.value
    }
}

impl ManifestEntry {
    pub fn command(&self) -> (r: String)
        ensures
            r@ == command_spec(self@),
    {
        let r = cat("Add :", self.key.as_str());
        let r = r.concat(" ");
        let r = r.concat(self.kind.as_str());
        let r = r.concat(" ");
        if self.quoted {
            let r = r.concat("\"");
            let r = r.concat(self.value.as_str());
            let r = r.concat("\"");
            proof {
                assert(r@ =~= command_spec(self@));
            }
            r
        } else {
            let r = r.concat(self.value.as_str());
            proof {
                assert(r@ =~= command_spec(self@));
            }
            r
        }
    }
}

/// What a descriptor reads after the assertions are applied in order to an
/// empty one: each key maps to the value of its last assertion.
pub open spec fn descriptor_spec(s: Seq<EntryView>) -> Map<Seq<char>, Seq<char>>
    decreases s.len(),
{
    if s.len() == 0 {
        Map::empty()
    } else {
        descriptor_spec(s.drop_last()).insert(s.last().key, s.last().value)
    }
}

/// Last write wins: when assertion `i` is the last one for its key, the
/// descriptor holds its value under that key, whatever came before.
pub proof fn lemma_last_write_wins(s: Seq<EntryView>, i: int)
    requires
        0 <= i < s.len(),
        forall|j: int| i < j < s.len() ==> s[j].key != s[i].key,
    ensures
        descriptor_spec(s).contains_key(s[i].key),
        descriptor_spec(s)[s[i].key] == s[i].value,
    decreases s.len(),
{
    if i < s.len() - 1 {
        lemma_last_write_wins(s.drop_last(), i);
    }
}

/// A key that no assertion names is absent from the descriptor.
pub proof fn lemma_unasserted_key_absent(s: Seq<EntryView>, k: Seq<char>)
    requires
        forall|j: int| 0 <= j < s.len() ==> s[j].key != k,
    ensures
        !descriptor_spec(s).contains_key(k),
    decreases s.len(),
{
    if s.len() > 0 {
        lemma_unasserted_key_absent(s.drop_last(), k);
    }
}

/// A property-list descriptor held in memory: each key at most once, with
/// the value it was last given.
pub struct Descriptor {
    keys: Vec<String>,
    values: Vec<String>,
    contents: Ghost<Map<Seq<char>, Seq<char>>>,
}

impl View for Descriptor {
    type V = Map<Seq<char>, Seq<char>>;

    closed spec fn view(&self) -> Map<Seq<char>, Seq<char>> {
        self.contents@
    }
}

impl Descriptor {
    pub closed spec fn wf(&self) -> bool {
        &&& self.keys@.len() == self.values@.len()
        &&& forall|i: int, j: int| 0 <= i < j < self.keys@.len() ==> self.keys@[i]@ != self.keys@[j]@
        &&& forall|i: int| 0 <= i < self.keys@.len() ==> self.contents@.contains_key(#[trigger] self.keys@[i]@)
            && self.contents@[self.keys@[i]@] == self.values@[i]@
        &&& forall|k: Seq<char>| #[trigger] self.contents@.contains_key(k) ==> exists|i: int|
            0 <= i < self.keys@.len() && self.keys@[i]@ == k
    }

    pub fn new() -> (r: Descriptor)
        ensures
            r.wf(),
            r@ == Map::<Seq<char>, Seq<char>>::empty(),
    {
        Descriptor { keys: Vec::new(), values: Vec::new(), contents: Ghost(Map::empty()) }
    }

    fn position(&self, key: &str) -> (r: Option<usize>)
        requires
            self.wf(),
        ensures
            match r {
                Some(i) => i < self.keys@.len() && self.keys@[i as int]@ == key@,
                None => forall|i: int| 0 <= i < self.keys@.len() ==> self.keys@[i]@ != key@,
            },
    {
        let mut i: usize = 0;
        while i < self.keys.len()
            invariant
                i <= self.keys@.len(),
                forall|j: int| 0 <= j < i ==> self.keys@[j]@ != key@,
            decreases self.keys@.len() - i,
        {
            if same(self.keys[i].as_str(), key) {
                return Some(i);
            }
            i = i + 1;
        }
        None
    }

    /// The value under `key`, if it has one.
    pub fn get(&self, key: &str) -> (r: Option<String>)
        requires
            self.wf(),
        ensures
            match r {
                Some(v) => self@.contains_key(key@) && self@[key@] == v@,
                None => !self@.contains_key(key@),
            },
    {
        match self.position(key) {
            Some(i) => Some(self.values[i].clone()),
            None => None,
        }
    }

    /// Gives `key` the value `value`, replacing the one it had.
    pub fn set(&mut self, key: &str, value: &str)
        requires
            old(self).wf(),
        ensures
            final(self).wf(),
            final(self)@ == old(self)@.insert(key@, value@),
    {
        let ghost m = self.contents@.insert(key@, value@);
        match self.position(key) {
            Some(i) => {
                self.values[i] = owned(value);
                self.contents = Ghost(m);
                assert forall|k: Seq<char>| #[trigger] self.contents@.contains_key(k) implies exists|j: int|
                    0 <= j < self.keys@.len() && self.keys@[j]@ == k by {
                    if k == key@ {
                        assert(self.keys@[i as int]@ == k);
                    }
                }
            },
            None => {
                let ghost n: int = self.keys@.len() as int;
                self.keys.push(owned(key));
                self.values.push(owned(value));
                self.contents = Ghost(m);
                assert forall|k: Seq<char>| #[trigger] self.contents@.contains_key(k) implies exists|j: int|
                    0 <= j < self.keys@.len() && self.keys@[j]@ == k by {
                    if k == key@ {
                        assert(self.keys@[n]@ == k);
                    } else {
                        let j = choose|j: int| 0 <= j < old(self).keys@.len() && old(self).keys@[j]@ == k;
                        assert(self.keys@[j]@ == k);
                    }
                }
            },
        }
    }

    /// The descriptor that results from applying `entries` in order to an empty one.
    pub fn from_entries(entries: &Vec<ManifestEntry>) -> (r: Descriptor)
        ensures
            r.wf(),
            r@ == descriptor_spec(entries_view(entries@)),
    {
        let ghost s = entries_view(entries@);
        let mut d = Descriptor::new();
        let mut i: usize = 0;
        proof {
            assert(s.take(0) =~= Seq::empty());
        }
        while i < entries.len()
            invariant
                i <= entries@.len(),
                s == entries_view(entries@),
                d.wf(),
                d@ == descriptor_spec(s.take(i as int)),
            decreases entries@.len() - i,
        {
            d.set(entries[i].key.as_str(), entries[i].value.as_str());
            proof {
                assert(s.take(i + 1).drop_last() =~= s.take(i as int));
            }
            i = i + 1;
        }
        proof {
            assert(s.take(i as int) =~= s);
        }
        d
    }
}

} // verus!
