//! Profile selection and ordering.
//!
//! Directory enumeration is an outside collaborator: the caller hands in
//! one entry per item of the browser's data directory, and this module
//! decides which entries are profiles (directories, not hidden, holding
//! a credential-store file), builds their paths, and orders them with
//! the default profile first and the rest by name.

use crate::models::{ChromeProfile, ChromeProfileV};
use vstd::prelude::*;
use vstd::string::{StrSliceExecFns, StringExecFns};
use vstd::utf8::encode_utf8;

verus! {

/// One entry of the browser's data directory, as the filesystem reports
/// it: its name, whether it is a directory, and whether it holds a
/// credential-store file.
#[derive(Debug, Clone)]
pub struct ProfileDirEntry {
    pub name: String,
    pub is_dir: bool,
    pub has_login_data: bool,
}

/// Spec-level image of a [`ProfileDirEntry`].
pub struct ProfileDirEntryV {
    pub name: Seq<char>,
    pub is_dir: bool,
    pub has_login_data: bool,
}

impl View for ProfileDirEntry {
    type V = ProfileDirEntryV;

    open spec fn view(&self) -> ProfileDirEntryV {
        ProfileDirEntryV {
            name: self.name@,
            is_dir: self.is_dir,
            has_login_data: self.has_login_data,
        }
    }
}

impl DeepView for ProfileDirEntry {
    type V = ProfileDirEntryV;

    open spec fn deep_view(&self) -> ProfileDirEntryV {
        self.view()
    }
}

/// Strict lexicographic order on byte sequences.
pub open spec fn spec_bytes_lt(a: Seq<u8>, b: Seq<u8>) -> bool
    decreases a.len(),
{
    if b.len() == 0 {
        false
    } else if a.len() == 0 {
        true
    } else if a[0] < b[0] {
        true
    } else if a[0] > b[0] {
        false
    } else {
        spec_bytes_lt(a.skip(1), b.skip(1))
    }
}

proof fn lemma_bytes_lt_asym(a: Seq<u8>, b: Seq<u8>)
    ensures
        !(spec_bytes_lt(a, b) && spec_bytes_lt(b, a)),
    decreases a.len(),
{
    if a.len() > 0 && b.len() > 0 && a[0] == b[0] {
        lemma_bytes_lt_asym(a.skip(1), b.skip(1));
    }
}

proof fn lemma_bytes_lt_trans(a: Seq<u8>, b: Seq<u8>, c: Seq<u8>)
    requires
        spec_bytes_lt(a, b),
        spec_bytes_lt(b, c),
    ensures
        spec_bytes_lt(a, c),
    decreases a.len(),
{
    if a.len() > 0 && b.len() > 0 && c.len() > 0 && a[0] == b[0] && b[0] == c[0] {
        lemma_bytes_lt_trans(a.skip(1), b.skip(1), c.skip(1));
    }
}

/// Rank of a profile name in the display order: the default profile
/// comes before everything else.
pub open spec fn spec_rank(name: Seq<char>) -> int {
    if name == "Default"@ {
        0int
    } else {
        1int
    }
}

/// Strict display order on profiles: by rank, then by name (UTF-8 byte
/// order, as the language's own string order has it).
pub open spec fn spec_profile_lt(x: ChromeProfileV, y: ChromeProfileV) -> bool {
    spec_rank(x.name) < spec_rank(y.name) || (spec_rank(x.name) == spec_rank(y.name)
        && spec_bytes_lt(encode_utf8(x.name), encode_utf8(y.name)))
}

proof fn lemma_profile_lt_asym(x: ChromeProfileV, y: ChromeProfileV)
    ensures
        !(spec_profile_lt(x, y) && spec_profile_lt(y, x)),
{
    lemma_bytes_lt_asym(encode_utf8(x.name), encode_utf8(y.name));
}

proof fn lemma_profile_lt_trans(x: ChromeProfileV, y: ChromeProfileV, z: ChromeProfileV)
    requires
        spec_profile_lt(x, y),
        spec_profile_lt(y, z),
    ensures
        spec_profile_lt(x, z),
{
    if spec_rank(x.name) == spec_rank(y.name) && spec_rank(y.name) == spec_rank(z.name) {
        lemma_bytes_lt_trans(
            encode_utf8(x.name),
            encode_utf8(y.name),
            encode_utf8(z.name),
        );
    }
}

/// No later profile may come strictly before an earlier one.
pub open spec fn spec_profiles_sorted(s: Seq<ChromeProfileV>) -> bool {
    forall|i: int, j: int|
        0 <= i < j < s.len() ==> !spec_profile_lt(#[trigger] s[j], #[trigger] s[i])
}

/// True when the directory entry counts as a profile: a directory whose
/// name is not hidden (no leading dot) and which holds a
/// credential-store file.
pub open spec fn spec_entry_kept(e: ProfileDirEntryV) -> bool {
    e.is_dir && !(e.name.len() > 0 && e.name[0] == '.') && e.has_login_data
}

/// The profile a kept entry names: its directory under the data
/// directory, and the credential-store file inside it.
pub open spec fn spec_profile_of(dir: Seq<char>, name: Seq<char>) -> ChromeProfileV {
    ChromeProfileV {
        name: name,
        path: dir + "/"@ + name,
        login_data_path: dir + "/"@ + name + "/Login Data"@,
    }
}

/// The profiles the kept entries name, in entry order.
pub open spec fn spec_selected(dir: Seq<char>, entries: Seq<ProfileDirEntryV>) -> Seq<
    ChromeProfileV,
> {
    entries.filter_map(
        |e: ProfileDirEntryV|
            if spec_entry_kept(e) {
                Some(spec_profile_of(dir, e.name))
            } else {
                None
            },
    )
}

/// Character-for-character string equality.
fn str_eq(a: &str, b: &str) -> (r: bool)
    ensures
        r == (a@ == b@),
{
    let ab = a.as_bytes();
    let bb = b.as_bytes();
    if ab.len() != bb.len() {
        return false;
    }
    let mut i: usize = 0;
    while i < ab.len()
        invariant
            ab@ == encode_utf8(a@),
            bb@ == encode_utf8(b@),
            ab@.len() == bb@.len(),
            i <= ab@.len(),
            ab@.take(i as int) =~= bb@.take(i as int),
        decreases ab@.len() - i,
    {
        let x = *vstd::slice::slice_index_get(ab, i);
        let y = *vstd::slice::slice_index_get(bb, i);
        if x != y {
            return false;
        }
        proof {
            assert(ab@.take(i + 1) =~= ab@.take(i as int) + seq![ab@[i as int]]);
            assert(bb@.take(i + 1) =~= bb@.take(i as int) + seq![bb@[i as int]]);
        }
        i = i + 1;
    }
    proof {
        assert(ab@.take(ab@.len() as int) =~= ab@);
        assert(bb@.take(bb@.len() as int) =~= bb@);
        assert(encode_utf8(a@) == encode_utf8(b@));
        vstd::utf8::encode_utf8_decode_utf8(a@);
        vstd::utf8::encode_utf8_decode_utf8(b@);
    }
    true
}

proof fn lemma_bytes_lt_skip_step(a: Seq<u8>, b: Seq<u8>, i: int)
    requires
        0 <= i,
        i < a.len(),
        i < b.len(),
        a.skip(i)[0] == b.skip(i)[0],
    ensures
        spec_bytes_lt(a.skip(i), b.skip(i)) == spec_bytes_lt(a.skip(i + 1), b.skip(i + 1)),
{
    assert(a.skip(i).skip(1) =~= a.skip(i + 1));
    assert(b.skip(i).skip(1) =~= b.skip(i + 1));
}

/// Strict lexicographic comparison of byte slices.
fn bytes_lt(a: &[u8], b: &[u8]) -> (r: bool)
    ensures
        r == spec_bytes_lt(a@, b@),
{
    proof {
        assert(a@.skip(0) =~= a@);
        assert(b@.skip(0) =~= b@);
    }
    let mut i: usize = 0;
    while i < a.len() && i < b.len()
        invariant
            i <= a@.len(),
            i <= b@.len(),
            spec_bytes_lt(a@, b@) == spec_bytes_lt(a@.skip(i as int), b@.skip(i as int)),
        decreases a@.len() - i,
    {
        let x = *vstd::slice::slice_index_get(a, i);
        let y = *vstd::slice::slice_index_get(b, i);
        if x < y {
            return true;
        }
        if x > y {
            return false;
        }
        proof {
            lemma_bytes_lt_skip_step(a@, b@, i as int);
        }
        i = i + 1;
    }
    a.len() < b.len()
}

/// Strict display-order comparison of profiles.
fn profile_lt(x: &ChromeProfile, y: &ChromeProfile) -> (r: bool)
    ensures
        r == spec_profile_lt(x.deep_view(), y.deep_view()),
{
    let xr: u8 = if str_eq(x.name.as_str(), "Default") {
        0
    } else {
        1
    };
    let yr: u8 = if str_eq(y.name.as_str(), "Default") {
        0
    } else {
        1
    };
    if xr < yr {
        true
    } else if xr > yr {
        false
    } else {
        bytes_lt(x.name.as_str().as_bytes(), y.name.as_str().as_bytes())
    }
}

/// Inserts one profile into an already ordered vector, keeping it
/// ordered.
fn insert_profile(sorted: &mut Vec<ChromeProfile>, p: ChromeProfile)
    requires
        spec_profiles_sorted(old(sorted).deep_view()),
    ensures
        spec_profiles_sorted(final(sorted).deep_view()),
        final(sorted).deep_view().to_multiset() == old(sorted).deep_view().to_multiset().insert(
            p.deep_view(),
        ),
{
    let ghost origv = sorted.deep_view();
    let mut j: usize = 0;
    let mut found = false;
    while !found && j < sorted.len()
        invariant
            j <= sorted@.len(),
            sorted.deep_view() == origv,
            forall|i: int| 0 <= i < j ==> !spec_profile_lt(p.deep_view(), #[trigger] origv[i]),
            found ==> j < sorted@.len() && spec_profile_lt(p.deep_view(), origv[j as int]),
        decreases sorted@.len() - j + (if found {
            0int
        } else {
            1int
        }),
    {
        if profile_lt(&p, &sorted[j]) {
            found = true;
        } else {
            j = j + 1;
        }
    }
    proof {
        assert(j == origv.len() || spec_profile_lt(p.deep_view(), origv[j as int]));
    }
    let ghost pv = p.deep_view();
    let ghost origx = sorted@;
    sorted.insert(j, p);
    proof {
        let newv = sorted.deep_view();
        assert(sorted@ == origx.insert(j as int, p));
        origx.insert_ensures(j as int, p);
        assert forall|idx: int| 0 <= idx < newv.len() implies newv[idx] == (origv.take(j as int)
            + seq![pv] + origv.skip(j as int))[idx] by {
            if idx < j {
                assert(sorted@[idx] == origx[idx]);
            } else if idx == j {
                assert(sorted@[idx] == p);
            } else {
                assert(sorted@[idx] == origx[idx - 1]);
            }
        }
        assert(newv =~= origv.take(j as int) + seq![pv] + origv.skip(j as int));
        assert forall|i: int, k: int| 0 <= i < k < newv.len() implies !spec_profile_lt(
            newv[k],
            newv[i],
        ) by {
            if k == j {
                assert(newv[i] == origv[i]);
                assert(!spec_profile_lt(pv, origv[i]));
                lemma_profile_lt_asym(pv, origv[i]);
            } else if i == j {
                let s = origv[k - 1];
                assert(newv[k] == s);
                lemma_profile_lt_asym(s, pv);
                if spec_profile_lt(s, pv) && spec_profile_lt(pv, origv[j as int]) {
                    lemma_profile_lt_trans(s, pv, origv[j as int]);
                }
            }
        }
        assert(origv.to_multiset().insert(pv) =~= newv.to_multiset()) by {
            broadcast use vstd::seq_lib::group_to_multiset_ensures;

            assert(newv.remove(j as int) =~= origv);
            assert(newv[j as int] == pv);
            assert(newv.contains(pv));
            assert(newv.remove(j as int).to_multiset() =~= newv.to_multiset().remove(pv));
        }
    }
}

/// Selects the profiles among the data directory's entries and returns
/// them ordered, the default profile first and the rest by name: the
/// result is exactly the kept entries' profiles (as a multiset), in
/// display order.
pub fn find_chrome_profiles(chrome_dir: &str, entries: &Vec<ProfileDirEntry>) -> (profiles: Vec<
    ChromeProfile,
>)
    ensures
        profiles.deep_view().to_multiset() == spec_selected(
            chrome_dir@,
            entries.deep_view(),
        ).to_multiset(),
        spec_profiles_sorted(profiles.deep_view()),
{
    let ghost f = |e: ProfileDirEntryV|
        if spec_entry_kept(e) {
            Some(spec_profile_of(chrome_dir@, e.name))
        } else {
            None
        };
    let mut picked: Vec<ChromeProfile> = Vec::new();
    let mut i: usize = 0;
    while i < entries.len()
        invariant
            i <= entries@.len(),
            f == (|e: ProfileDirEntryV|
                if spec_entry_kept(e) {
                    Some(spec_profile_of(chrome_dir@, e.name))
                } else {
                    None
                }),
            picked.deep_view() =~= entries.deep_view().take(i as int).filter_map(f),
        decreases entries@.len() - i,
    {
        let ghost prev = picked.deep_view();
        let e = &entries[i];
        proof {
            assert(entries.deep_view()[i as int] == e.deep_view());
            entries.deep_view().lemma_filter_map_take_succ(f, i as int);
        }
        let name_len = e.name.as_str().unicode_len();
        let hidden = if name_len > 0 {
            e.name.as_str().get_char(0) == '.'
        } else {
            false
        };
        if e.is_dir && !hidden && e.has_login_data {
            let dir_path = chrome_dir.to_owned().concat("/").concat(e.name.as_str());
            let login_path = chrome_dir.to_owned().concat("/").concat(e.name.as_str()).concat(
                "/Login Data",
            );
            let profile = ChromeProfile {
                name: e.name.as_str().to_owned(),
                path: dir_path,
                login_data_path: login_path,
            };
            proof {
                assert(profile.deep_view().path =~= spec_profile_of(chrome_dir@, e.name@).path);
                assert(profile.deep_view().login_data_path =~= spec_profile_of(
                    chrome_dir@,
                    e.name@,
                ).login_data_path);
                assert(profile.deep_view() == spec_profile_of(chrome_dir@, e.name@));
            }
            picked.push(profile);
            proof {
                assert(picked.deep_view() =~= prev + seq![spec_profile_of(chrome_dir@, e.name@)]);
            }
        }
        i = i + 1;
    }
    proof {
        assert(entries.deep_view().take(entries@.len() as int) =~= entries.deep_view());
    }
    let ghost selectedv = picked.deep_view();
    let mut profiles: Vec<ChromeProfile> = Vec::new();
    proof {
        broadcast use vstd::seq_lib::group_to_multiset_ensures;

        assert(profiles.deep_view() =~= Seq::<ChromeProfileV>::empty());
        assert(profiles.deep_view().to_multiset().add(picked.deep_view().to_multiset())
            =~= selectedv.to_multiset());
    }
    while picked.len() > 0
        invariant
            spec_profiles_sorted(profiles.deep_view()),
            profiles.deep_view().to_multiset().add(picked.deep_view().to_multiset())
                == selectedv.to_multiset(),
        decreases picked@.len(),
    {
        let ghost beforev = picked.deep_view();
        let last = picked.len() - 1;
        let p = picked.remove(last);
        proof {
            broadcast use vstd::seq_lib::group_to_multiset_ensures;

            assert(beforev.last() == p.deep_view());
            assert(beforev.contains(beforev.last()));
            assert(picked.deep_view() =~= beforev.remove(beforev.len() - 1));
            assert(beforev.remove(beforev.len() - 1).to_multiset() =~= beforev.to_multiset()
                .remove(beforev.last()));
        }
        insert_profile(&mut profiles, p);
        proof {
            broadcast use vstd::seq_lib::group_to_multiset_ensures;
            broadcast use vstd::multiset::group_multiset_axioms;

            assert(profiles.deep_view().to_multiset().add(picked.deep_view().to_multiset())
                =~= selectedv.to_multiset());
        }
    }
    proof {
        broadcast use vstd::seq_lib::group_to_multiset_ensures;
        broadcast use vstd::multiset::group_multiset_axioms;

        assert(picked.deep_view() =~= Seq::<ChromeProfileV>::empty());
        assert(profiles.deep_view().to_multiset() =~= selectedv.to_multiset());
    }
    profiles
}

/// Returns the first profile of the given name, or `None` when no
/// profile has it.
pub fn find_profile_by_name(profiles: &Vec<ChromeProfile>, name: &str) -> (r: Option<
    ChromeProfile,
>)
    ensures
        match r {
            Some(p) => exists|i: int|
                0 <= i < profiles.deep_view().len() && p.deep_view() == profiles.deep_view()[i]
                    && profiles.deep_view()[i].name == name@,
            None => forall|i: int|
                0 <= i < profiles.deep_view().len() ==> (#[trigger] profiles.deep_view()[i]).name
                    != name@,
        },
{
    let mut i: usize = 0;
    while i < profiles.len()
        invariant
            i <= profiles@.len(),
            forall|j: int|
                0 <= j < i ==> (#[trigger] profiles.deep_view()[j]).name != name@,
        decreases profiles@.len() - i,
    {
        let p = &profiles[i];
        if str_eq(p.name.as_str(), name) {
            let found = ChromeProfile {
                name: p.name.as_str().to_owned(),
                path: p.path.as_str().to_owned(),
                login_data_path: p.login_data_path.as_str().to_owned(),
            };
            proof {
                assert(found.deep_view() == profiles.deep_view()[i as int]);
            }
            return Some(found);
        }
        i = i + 1;
    }
    None
}

/// Returns the default profile, when one exists.
pub fn get_default_profile(profiles: &Vec<ChromeProfile>) -> (r: Option<ChromeProfile>)
    ensures
        match r {
            Some(p) => exists|i: int|
                0 <= i < profiles.deep_view().len() && p.deep_view() == profiles.deep_view()[i]
                    && profiles.deep_view()[i].name == "Default"@,
            None => forall|i: int|
                0 <= i < profiles.deep_view().len() ==> (#[trigger] profiles.deep_view()[i]).name
                    != "Default"@,
        },
{
    find_profile_by_name(profiles, "Default")
}

} // verus!
