//! The store of named profiles, each holding the credentials and endpoint of
//! an account, one of them marked active. Reading and writing the store's
//! file is left to the caller.
use vstd::prelude::*;
use crate::text::{padded, pad_right};

verus! {

/// The credentials and endpoint of one account.
#[derive(Debug, Clone)]
pub struct Profile {
    pub user_name: String,
    pub url: String,
    pub api_key: String,
}

/// A profile as plain text.
pub struct ProfileView {
    pub user_name: Seq<char>,
    pub url: Seq<char>,
    pub api_key: Seq<char>,
}

impl View for Profile {
    type V = ProfileView;

    open spec fn view(&self) -> ProfileView {
        ProfileView { user_name: self.user_name@, url: self.url@, api_key: self.api_key@ }
    }
}

impl Profile {
    /// A copy of the profile.
    pub fn duplicate(&self) -> (r: Profile)
        ensures
            r@ == self@,
    {
        Profile {
            user_name: self.user_name.clone(),
            url: self.url.clone(),
            api_key: self.api_key.clone(),
        }
    }
}

/// An optional name as plain text.
pub open spec fn name_view(o: Option<String>) -> Option<Seq<char>> {
    match o {
        Some(s) => Some(s@),
        None => None,
    }
}

/// An optional profile as plain text.
pub open spec fn profile_view(o: Option<Profile>) -> Option<ProfileView> {
    match o {
        Some(p) => Some(p@),
        None => None,
    }
}

/// A list of named profiles as plain text.
pub open spec fn entries_view(v: Seq<(String, Profile)>) -> Seq<(Seq<char>, ProfileView)> {
    v.map_values(|e: (String, Profile)| (e.0@, e.1@))
}

/// The first name of a table, if it has one.
pub open spec fn first_name(e: Seq<(Seq<char>, ProfileView)>) -> Option<Seq<char>> {
    if e.len() > 0 {
        Some(e[0].0)
    } else {
        None
    }
}

/// A table of profiles in order, with the name of the active one.
pub struct ProfilesView {
    pub active: Option<Seq<char>>,
    pub entries: Seq<(Seq<char>, ProfileView)>,
}

/// No two entries carry the same name.
pub open spec fn names_unique(e: Seq<(Seq<char>, ProfileView)>) -> bool {
    forall|i: int, j: int| 0 <= i < e.len() && 0 <= j < e.len() && i != j ==> #[trigger] e[i].0
        != #[trigger] e[j].0
}

/// Some entry carries `name`.
pub open spec fn has_name(e: Seq<(Seq<char>, ProfileView)>, name: Seq<char>) -> bool {
    exists|i: int| 0 <= i < e.len() && #[trigger] e[i].0 == name
}

/// The position of the entry that carries `name` (where there is one).
pub open spec fn index_of(e: Seq<(Seq<char>, ProfileView)>, name: Seq<char>) -> int {
    choose|i: int| 0 <= i < e.len() && #[trigger] e[i].0 == name
}

impl ProfilesView {
    /// Names are unique and the active name, if any, is in the table.
    pub open spec fn wf(self) -> bool {
        &&& names_unique(self.entries)
        &&& (self.active matches Some(a) ==> has_name(self.entries, a))
    }

    /// The profile called `name`, if there is one.
    pub open spec fn profile(self, name: Seq<char>) -> Option<ProfileView> {
        if has_name(self.entries, name) {
            Some(self.entries[index_of(self.entries, name)].1)
        } else {
            None
        }
    }

    /// The active profile, if there is one.
    pub open spec fn active_profile(self) -> Option<ProfileView> {
        match self.active {
            Some(a) => self.profile(a),
            None => None,
        }
    }

    /// The table with `p` stored under `name`: in place of the entry of that
    /// name, or added at the end.
    pub open spec fn inserted(self, name: Seq<char>, p: ProfileView) -> Seq<
        (Seq<char>, ProfileView),
    > {
        if has_name(self.entries, name) {
            self.entries.update(index_of(self.entries, name), (name, p))
        } else {
            self.entries.push((name, p))
        }
    }
}

/// Storing a profile adds its name to the table's names and no other.
pub proof fn lemma_inserted_names(v: ProfilesView, name: Seq<char>, p: ProfileView)
    ensures
        forall|x: Seq<char>| #[trigger]
            has_name(v.inserted(name, p), x) <==> has_name(v.entries, x) || x == name,
{
    let e = v.entries;
    let f = v.inserted(name, p);
    if has_name(e, name) {
        let k = index_of(e, name);
        assert forall|j: int| 0 <= j < f.len() implies #[trigger] f[j].0 == e[j].0 by {}
        assert forall|x: Seq<char>| #[trigger] has_name(f, x) <==> has_name(e, x) || x == name by {
            if has_name(e, x) {
                let j = choose|j: int| 0 <= j < e.len() && #[trigger] e[j].0 == x;
                assert(f[j].0 == x);
            }
            if has_name(f, x) {
                let j = choose|j: int| 0 <= j < f.len() && #[trigger] f[j].0 == x;
                assert(e[j].0 == x);
            }
        }
    } else {
        assert forall|x: Seq<char>| #[trigger] has_name(f, x) <==> has_name(e, x) || x == name by {
            if has_name(e, x) {
                let j = choose|j: int| 0 <= j < e.len() && #[trigger] e[j].0 == x;
                assert(f[j].0 == x);
            }
            if x == name {
                assert(f[e.len() as int].0 == x);
            }
            if has_name(f, x) && x != name {
                let j = choose|j: int| 0 <= j < f.len() && #[trigger] f[j].0 == x;
                assert(j < e.len());
                assert(e[j].0 == x);
            }
        }
    }
}

/// The profiles and the name of the active one.
#[derive(Debug)]
pub struct Profiles {
    profile_active: Option<String>,
    profiles: Vec<(String, Profile)>,
}

impl View for Profiles {
    type V = ProfilesView;

    closed spec fn view(&self) -> ProfilesView {
        ProfilesView {
            active: name_view(self.profile_active),
            entries: entries_view(self.profiles@),
        }
    }
}

impl Profiles {
    #[verifier::type_invariant]
    closed spec fn inv(self) -> bool {
        self@.wf()
    }

    /// No profiles, none active.
    pub fn new() -> (r: Profiles)
        ensures
            r@.active is None,
            r@.entries.len() == 0,
            r@.wf(),
    {
        let r = Profiles { profile_active: None, profiles: Vec::new() };
        assert(r@.entries =~= Seq::empty());
        r
    }

    /// The position of the profile called `name`.
    fn find(&self, name: &String) -> (r: Option<usize>)
        ensures
            r is None <==> !has_name(self@.entries, name@),
            r is Some ==> r->0 < self@.entries.len() && r->0 == index_of(self@.entries, name@),
    {
        proof {
            use_type_invariant(self);
        }
        let n = self.profiles.len();
        let mut i: usize = 0;
        while i < n
            invariant
                n == self@.entries.len(),
                self@.wf(),
                self@.entries == entries_view(self.profiles@),
                0 <= i <= n,
                forall|j: int| 0 <= j < i ==> #[trigger] self@.entries[j].0 != name@,
            decreases n - i,
        {
            if self.profiles[i].0 == *name {
                assert(self@.entries[i as int].0 == name@);
                let ghost k = index_of(self@.entries, name@);
                assert(self@.entries[k].0 == name@);
                return Some(i);
            }
            i = i + 1;
        }
        None
    }

    /// Stores `p` under `name`, replacing a profile of that name; the active
    /// name stays.
    pub fn put(&mut self, name: String, p: Profile)
        ensures
            final(self)@.active == old(self)@.active,
            final(self)@.entries == old(self)@.inserted(name@, p@),
            final(self)@.wf(),
    {
        proof {
            use_type_invariant(&*self);
        }
        let ghost old_view = self@;
        let found = self.find(&name);
        let mut cur = Profiles::new();
        std::mem::swap(self, &mut cur);
        let Profiles { profile_active, mut profiles } = cur;
        let ghost name_v = name@;
        let ghost p_v = p@;
        match found {
            Some(i) => {
                profiles.set(i, (name, p));
            },
            None => {
                profiles.push((name, p));
            },
        }
        let ghost entries = entries_view(profiles@);
        assert(entries =~= old_view.inserted(name_v, p_v));
        proof {
            let e = old_view.entries;
            if has_name(e, name_v) {
                assert forall|j: int| 0 <= j < entries.len() implies #[trigger] entries[j].0 == e[j].0 by {}
            } else {
                assert forall|j: int| 0 <= j < e.len() implies #[trigger] entries[j].0 == e[j].0 by {}
            }
            if let Some(a) = old_view.active {
                let k = choose|k: int| 0 <= k < e.len() && #[trigger] e[k].0 == a;
                assert(entries[k].0 == a);
            }
        }
        *self = Profiles { profile_active, profiles };
    }

    /// The name of the active profile.
    pub fn active_name(&self) -> (r: Option<String>)
        ensures
            name_view(r) == self@.active,
    {
        match &self.profile_active {
            Some(a) => Some(a.clone()),
            None => None,
        }
    }

    /// The profile called `name`.
    pub fn get(&self, name: &String) -> (r: Option<Profile>)
        ensures
            profile_view(r) == self@.profile(name@),
    {
        match self.find(name) {
            Some(i) => Some(self.profiles[i].1.duplicate()),
            None => None,
        }
    }

    /// A copy of the table, in order.
    pub fn entries(&self) -> (r: Vec<(String, Profile)>)
        ensures
            entries_view(r@) == self@.entries,
    {
        let n = self.profiles.len();
        let mut r: Vec<(String, Profile)> = Vec::new();
        let mut i: usize = 0;
        while i < n
            invariant
                n == self.profiles@.len(),
                0 <= i <= n,
                entries_view(r@) =~= entries_view(self.profiles@).take(i as int),
            decreases n - i,
        {
            let e = &self.profiles[i];
            let ghost before = r@;
            r.push((e.0.clone(), e.1.duplicate()));
            assert(entries_view(r@) =~= entries_view(before).push(entries_view(self.profiles@)[i as int]));
            assert(entries_view(self.profiles@).take(i + 1) =~= entries_view(self.profiles@).take(i as int).push(entries_view(self.profiles@)[i as int]));
            i = i + 1;
        }
        assert(entries_view(self.profiles@).take(n as int) =~= entries_view(self.profiles@));
        r
    }

    /// Makes the profile called `name` active, where there is one; else
    /// changes nothing and returns `false`.
    pub fn set_active(&mut self, name: &String) -> (r: bool)
        ensures
            r == has_name(old(self)@.entries, name@),
            final(self)@.entries == old(self)@.entries,
            final(self)@.active == if r {
                Some(name@)
            } else {
                old(self)@.active
            },
            final(self)@.wf(),
    {
        proof {
            use_type_invariant(&*self);
        }
        if self.find(name).is_none() {
            return false;
        }
        let mut cur = Profiles::new();
        std::mem::swap(self, &mut cur);
        let Profiles { profile_active, profiles } = cur;
        *self = Profiles { profile_active: Some(name.clone()), profiles };
        true
    }

    /// Removes every profile.
    pub fn clear(&mut self)
        ensures
            final(self)@.active is None,
            final(self)@.entries.len() == 0,
            final(self)@.wf(),
    {
        *self = Profiles::new();
    }

    /// Removes the profile called `name`, where there is one, and makes the
    /// first remaining profile active (none where none remains); else changes
    /// nothing and returns `false`.
    pub fn delete(&mut self, name: &String) -> (r: bool)
        ensures
            r == has_name(old(self)@.entries, name@),
            r ==> final(self)@.entries == old(self)@.entries.remove(
                index_of(old(self)@.entries, name@),
            ),
            r ==> final(self)@.active == first_name(final(self)@.entries),
            !r ==> final(self)@ == old(self)@,
            final(self)@.wf(),
    {
        proof {
            use_type_invariant(&*self);
        }
        let ghost old_view = self@;
        let i = match self.find(name) {
            Some(i) => i,
            None => {
                return false;
            },
        };
        let mut cur = Profiles::new();
        std::mem::swap(self, &mut cur);
        let Profiles { profile_active: _, mut profiles } = cur;
        profiles.remove(i);
        let ghost e = old_view.entries;
        let ghost f = entries_view(profiles@);
        assert(f =~= e.remove(i as int));
        assert forall|a: int, b: int| 0 <= a < f.len() && 0 <= b < f.len() && a != b implies #[trigger] f[a].0
            != #[trigger] f[b].0 by {
            let a2 = if a < i { a } else { a + 1 };
            let b2 = if b < i { b } else { b + 1 };
            assert(f[a].0 == e[a2].0 && f[b].0 == e[b2].0);
        }
        let active = if profiles.len() > 0 {
            Some(profiles[0].0.clone())
        } else {
            None
        };
        proof {
            if f.len() > 0 {
                assert(f[0].0 == first_name(f)->0);
            }
        }
        *self = Profiles { profile_active: active, profiles };
        true
    }

    /// The profiles of `entries`, a later entry replacing an earlier one of
    /// the same name, with `active` active where a profile of that name is
    /// among them, and none active otherwise.
    pub fn from_entries(active: Option<String>, entries: Vec<(String, Profile)>) -> (r: Profiles)
        ensures
            forall|x: Seq<char>| #[trigger]
                has_name(r@.entries, x) == has_name(entries_view(entries@), x),
            r@.active == match name_view(active) {
                Some(a) => if has_name(entries_view(entries@), a) {
                    Some(a)
                } else {
                    None
                },
                None => None,
            },
            r@.wf(),
    {
        let ghost all = entries_view(entries@);
        let mut r = Profiles::new();
        let mut entries = entries;
        let ghost mut taken: int = 0;
        while entries.len() > 0
            invariant
                0 <= taken <= all.len(),
                entries_view(entries@) == all.skip(taken),
                r@.active is None,
                forall|x: Seq<char>| #[trigger]
                    has_name(r@.entries, x) == has_name(all.take(taken), x),
            decreases entries.len(),
        {
            let ghost rest = entries@;
            assert(entries_view(rest).len() == rest.len());
            assert(taken < all.len());
            let (name, p) = entries.remove(0);
            let ghost before = r@;
            proof {
                assert(entries_view(rest)[0] == (name@, p@));
                assert(all.skip(taken)[0] == all[taken]);
                lemma_inserted_names(before, name@, p@);
            }
            r.put(name, p);
            proof {
                let t0 = all.take(taken);
                let t1 = all.take(taken + 1);
                assert(t1 =~= t0.push(all[taken]));
                assert forall|x: Seq<char>| #[trigger] has_name(t1, x) == (has_name(t0, x) || x
                    == all[taken].0) by {
                    if has_name(t0, x) {
                        let j = choose|j: int| 0 <= j < t0.len() && #[trigger] t0[j].0 == x;
                        assert(t1[j].0 == x);
                    }
                    if x == all[taken].0 {
                        assert(t1[taken].0 == x);
                    }
                    if has_name(t1, x) && x != all[taken].0 {
                        let j = choose|j: int| 0 <= j < t1.len() && #[trigger] t1[j].0 == x;
                        assert(t0[j].0 == x);
                    }
                }
                assert(entries@ =~= rest.skip(1));
                assert(entries_view(entries@) =~= entries_view(rest).skip(1));
                assert(all.skip(taken).skip(1) =~= all.skip(taken + 1));
                taken = taken + 1;
            }
        }
        assert(all.take(taken) =~= all);
        if let Some(a) = active {
            r.set_active(&a);
        }
        proof {
            use_type_invariant(&r);
        }
        r
    }
}

/// Why a profile operation failed.
#[derive(Debug, Copy, Clone, PartialEq, Eq, Structural)]
pub enum ConfigError {
    /// No profile is active, so no account can be reached.
    NoActiveProfile,
    /// No profile has the name given.
    ProfileNotFound,
}

/// Lines of text as plain text.
pub open spec fn lines_view(v: Seq<String>) -> Seq<Seq<char>> {
    v.map_values(|s: String| s@)
}

/// The first line of the profile overview.
pub open spec fn active_line(active: Option<Seq<char>>) -> Seq<char> {
    match active {
        Some(a) => "Active profile '"@ + a + "'"@,
        None => "<No profile active>"@,
    }
}

/// The column titles of the profile overview.
pub open spec fn header_line() -> Seq<char> {
    padded("<profile>"@, 15) + " "@ + padded("<user>"@, 30) + " "@ + "<url>"@
}

/// The overview line of one profile: its name, user and URL in columns.
pub open spec fn profile_row(name: Seq<char>, p: ProfileView) -> Seq<char> {
    padded(name, 15) + " "@ + padded(p.user_name, 30) + " "@ + p.url
}

/// The profile overview: the active profile, a blank line, the column
/// titles, and one line for each profile in order.
pub open spec fn overview_lines(v: ProfilesView) -> Seq<Seq<char>> {
    seq![active_line(v.active), Seq::empty(), header_line()] + v.entries.map_values(
        |e: (Seq<char>, ProfileView)| profile_row(e.0, e.1),
    )
}

/// The profile store: where it is kept, and its profiles.
#[derive(Debug)]
pub struct LxpConfig {
    pub config_path: String,
    pub profiles: Profiles,
}

impl LxpConfig {
    /// The store kept at `config_path`, holding `profiles` (as read from there).
    pub fn new(config_path: &str, profiles: Profiles) -> (r: LxpConfig)
        ensures
            r.config_path@ == config_path@,
            r.profiles@ == profiles@,
    {
        LxpConfig { config_path: config_path.to_owned(), profiles }
    }

    /// The active profile, or `None` where no profile is active.
    pub fn get_active_profile(&self) -> (r: Option<Profile>)
        ensures
            profile_view(r) == self.profiles@.active_profile(),
            r is Some <==> self.profiles@.active is Some,
    {
        proof {
            use_type_invariant(&self.profiles);
        }
        match self.profiles.active_name() {
            Some(a) => self.profiles.get(&a),
            None => None,
        }
    }

    /// The name of the active profile.
    pub fn get_active_profile_name(&self) -> (r: Option<String>)
        ensures
            name_view(r) == self.profiles@.active,
    {
        self.profiles.active_name()
    }

    /// Stores `profile` under `profile_name`, replacing one of that name, and
    /// makes it active.
    pub fn new_profile(&mut self, profile_name: &str, profile: Profile)
        ensures
            final(self).profiles@.entries == old(self).profiles@.inserted(profile_name@, profile@),
            final(self).profiles@.active == Some(profile_name@),
            final(self).config_path == old(self).config_path,
    {
        let name = profile_name.to_owned();
        let ghost before = self.profiles@;
        self.profiles.put(name.clone(), profile);
        proof {
            lemma_inserted_names(before, name@, profile@);
        }
        self.profiles.set_active(&name);
    }

    /// Removes every profile.
    pub fn delete_all_profiles(&mut self)
        ensures
            final(self).profiles@.entries.len() == 0,
            final(self).profiles@.active is None,
            final(self).config_path == old(self).config_path,
    {
        self.profiles.clear();
    }

    /// Removes the profile called `profile_name` and makes the first remaining
    /// profile active (none where none remains). Fails with `ProfileNotFound`,
    /// changing nothing, where there is no such profile.
    pub fn delete_profile(&mut self, profile_name: &str) -> (r: Result<(), ConfigError>)
        ensures
            r is Ok <==> has_name(old(self).profiles@.entries, profile_name@),
            r is Err ==> r->Err_0 == ConfigError::ProfileNotFound && final(self).profiles@ == old(
                self,
            ).profiles@,
            r is Ok ==> final(self).profiles@.entries == old(self).profiles@.entries.remove(
                index_of(old(self).profiles@.entries, profile_name@),
            ),
            r is Ok ==> final(self).profiles@.active == first_name(final(self).profiles@.entries),
            final(self).config_path == old(self).config_path,
    {
        let name = profile_name.to_owned();
        if self.profiles.delete(&name) {
            Ok(())
        } else {
            Err(ConfigError::ProfileNotFound)
        }
    }

    /// Makes the profile called `profile_name` active. Fails with
    /// `ProfileNotFound`, changing nothing, where there is no such profile.
    pub fn switch_profile(&mut self, profile_name: &str) -> (r: Result<(), ConfigError>)
        ensures
            r is Ok <==> has_name(old(self).profiles@.entries, profile_name@),
            r is Err ==> r->Err_0 == ConfigError::ProfileNotFound,
            final(self).profiles@.entries == old(self).profiles@.entries,
            final(self).profiles@.active == if r is Ok {
                Some(profile_name@)
            } else {
                old(self).profiles@.active
            },
            final(self).config_path == old(self).config_path,
    {
        let name = profile_name.to_owned();
        if self.profiles.set_active(&name) {
            Ok(())
        } else {
            Err(ConfigError::ProfileNotFound)
        }
    }

    /// The profile overview, line by line (see `overview_lines`).
    pub fn show_profiles(&self) -> (r: Vec<String>)
        ensures
            lines_view(r@) == overview_lines(self.profiles@),
    {
        let mut r: Vec<String> = Vec::new();
        let first = match self.profiles.active_name() {
            Some(a) => "Active profile '".to_owned().concat(a.as_str()).concat("'"),
            None => "<No profile active>".to_owned(),
        };
        r.push(first);
        r.push(String::new());
        let header = pad_right("<profile>", 15).concat(" ").concat(pad_right("<user>", 30).as_str()).concat(
            " ",
        ).concat("<url>");
        r.push(header);
        let entries = self.profiles.entries();
        let ghost ev = entries_view(entries@);
        let ghost rows = ev.map_values(|e: (Seq<char>, ProfileView)| profile_row(e.0, e.1));
        let n = entries.len();
        let mut i: usize = 0;
        assert(lines_view(r@) =~= seq![active_line(self.profiles@.active), Seq::empty(), header_line()]);
        while i < n
            invariant
                n == entries@.len(),
                ev == entries_view(entries@),
                rows == ev.map_values(|e: (Seq<char>, ProfileView)| profile_row(e.0, e.1)),
                0 <= i <= n,
                lines_view(r@) =~= seq![active_line(self.profiles@.active), Seq::empty(), header_line()]
                    + rows.take(i as int),
            decreases n - i,
        {
            let e = &entries[i];
            let row = pad_right(e.0.as_str(), 15).concat(" ").concat(
                pad_right(e.1.user_name.as_str(), 30).as_str(),
            ).concat(" ").concat(e.1.url.as_str());
            let ghost before = r@;
            r.push(row);
            proof {
                assert(rows[i as int] == row@);
                assert(rows.take(i + 1) =~= rows.take(i as int).push(rows[i as int]));
                assert(lines_view(r@) =~= lines_view(before).push(row@));
            }
            i = i + 1;
        }
        assert(rows.take(n as int) =~= rows);
        r
    }
}

} // verus!
