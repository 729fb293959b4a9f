//! Collections of service profiles in which no profile occurs twice.

use crate::mdns::Advertisement;
use crate::mdns::OSCQueryServiceProfile;
use crate::mdns::ProfileView;
use vstd::prelude::*;

verus! {

/// The profiles of a list.
pub open spec fn profile_views(items: Seq<OSCQueryServiceProfile>) -> Seq<ProfileView> {
    items.map_values(|p: OSCQueryServiceProfile| p@)
}

/// The profiles of what a list advertises.
pub open spec fn advertised_views(items: Seq<Advertisement>) -> Seq<ProfileView> {
    items.map_values(|a: Advertisement| a@)
}

/// The profiles that do not bear the name.
pub open spec fn not_named(profiles: Set<ProfileView>, name: Seq<char>) -> Set<ProfileView> {
    profiles.filter(|p: ProfileView| p.name != name)
}

/// One of the profiles has the name and the kind of the given one.
pub open spec fn has_service(profiles: Set<ProfileView>, p: ProfileView) -> bool {
    exists|q: ProfileView| #[trigger] profiles.contains(q) && q.same_service(p)
}

/// The profiles that differ from the given one in name or kind.
pub open spec fn other_services(profiles: Set<ProfileView>, p: ProfileView) -> Set<ProfileView> {
    profiles.filter(|q: ProfileView| !q.same_service(p))
}

/// A set of profiles.
#[derive(Debug)]
pub struct ProfileSet {
    items: Vec<OSCQueryServiceProfile>,
}

impl View for ProfileSet {
    type V = Set<ProfileView>;

    closed spec fn view(&self) -> Set<ProfileView> {
        profile_views(self.items@).to_set()
    }
}

impl ProfileSet {
    /// No profile occurs twice.
    pub closed spec fn wf(self) -> bool {
        profile_views(self.items@).no_duplicates()
    }

    /// A set without profiles.
    pub fn new() -> (set: ProfileSet)
        ensures
            set.wf(),
            set@ == Set::<ProfileView>::empty(),
    {
        let set = ProfileSet { items: Vec::new() };
        assert(set@ =~= Set::<ProfileView>::empty());
        set
    }

    /// Whether the profile is in the set.
    pub fn contains(&self, profile: &OSCQueryServiceProfile) -> (found: bool)
        ensures
            found == self@.contains(profile@),
    {
        let mut i: usize = 0;
        while i < self.items.len()
            invariant
                i <= self.items.len(),
                forall|j: int| 0 <= j < i ==> #[trigger] profile_views(self.items@)[j] != profile@,
            decreases self.items.len() - i,
        {
            assert(profile_views(self.items@)[i as int] == self.items@[i as int]@);
            if self.items[i] == *profile {
                assert(profile_views(self.items@).contains(profile@));
                return true;
            }
            i = i + 1;
        }
        false
    }

    /// Adds a profile, and tells whether it was not there before.
    pub fn insert(&mut self, profile: OSCQueryServiceProfile) -> (added: bool)
        requires
            old(self).wf(),
        ensures
            final(self).wf(),
            final(self)@ == old(self)@.insert(profile@),
            added == !old(self)@.contains(profile@),
    {
        if self.contains(&profile) {
            assert(self@ =~= self@.insert(profile@));
            return false;
        }
        let ghost before = profile_views(self.items@);
        self.items.push(profile);
        proof {
            assert(profile_views(self.items@) =~= before.push(profile@));
            lemma_push_new(before, profile@);
        }
        true
    }

    /// Drops every profile that bears the name.
    pub fn remove_named(&mut self, name: &str)
        requires
            old(self).wf(),
        ensures
            final(self).wf(),
            final(self)@ == not_named(old(self)@, name@),
    {
        let ghost all = profile_views(self.items@);
        let mut i: usize = 0;
        assert(forall|p: ProfileView| profile_views(self.items@).contains(p) ==> all.contains(p));
        while i < self.items.len()
            invariant
                i <= self.items.len(),
                profile_views(self.items@).no_duplicates(),
                forall|j: int|
                    0 <= j < i ==> (#[trigger] profile_views(self.items@)[j]).name != name@,
                forall|p: ProfileView| #[trigger]
                    profile_views(self.items@).contains(p) ==> all.contains(p),
                forall|p: ProfileView| #[trigger]
                    all.contains(p) && p.name != name@ ==> profile_views(self.items@).contains(p),
            decreases self.items.len() - i,
        {
            let ghost before = profile_views(self.items@);
            assert(before[i as int] == self.items@[i as int]@);
            if crate::text::same_text(self.items[i].name.as_str(), name) {
                self.items.remove(i);
                proof {
                    assert(profile_views(self.items@) =~= before.remove(i as int));
                    lemma_remove_at(before, i as int);
                }
            } else {
                i = i + 1;
            }
        }
        assert(self@ =~= not_named(all.to_set(), name@));
    }

    /// The profiles, in no particular order and each one once.
    pub fn to_vec(&self) -> (list: Vec<OSCQueryServiceProfile>)
        requires
            self.wf(),
        ensures
            profile_views(list@).no_duplicates(),
            profile_views(list@).to_set() == self@,
    {
        let mut list: Vec<OSCQueryServiceProfile> = Vec::new();
        let mut i: usize = 0;
        while i < self.items.len()
            invariant
                i <= self.items.len(),
                list@ == self.items@.subrange(0, i as int),
            decreases self.items.len() - i,
        {
            list.push(self.items[i].clone());
            i = i + 1;
        }
        assert(list@ =~= self.items@);
        list
    }
}

/// The services that are registered, each with the form in which it was.
#[derive(Debug)]
pub struct Registrations {
    items: Vec<Advertisement>,
}

impl View for Registrations {
    type V = Set<ProfileView>;

    closed spec fn view(&self) -> Set<ProfileView> {
        advertised_views(self.items@).to_set()
    }
}

impl Registrations {
    /// No profile occurs twice.
    pub closed spec fn wf(self) -> bool {
        advertised_views(self.items@).no_duplicates()
    }

    /// A list without registrations.
    pub fn new() -> (registrations: Registrations)
        ensures
            registrations.wf(),
            registrations@ == Set::<ProfileView>::empty(),
    {
        let registrations = Registrations { items: Vec::new() };
        assert(registrations@ =~= Set::<ProfileView>::empty());
        registrations
    }

    /// Where the profile is listed.
    fn position(&self, profile: &OSCQueryServiceProfile) -> (at: Option<usize>)
        ensures
            match at {
                Some(i) => i < self.items@.len() && self.items@[i as int]@ == profile@,
                None => !self@.contains(profile@),
            },
    {
        let mut i: usize = 0;
        while i < self.items.len()
            invariant
                i <= self.items.len(),
                forall|j: int|
                    0 <= j < i ==> #[trigger] advertised_views(self.items@)[j] != profile@,
            decreases self.items.len() - i,
        {
            assert(advertised_views(self.items@)[i as int] == self.items@[i as int]@);
            if *self.items[i].profile() == *profile {
                return Some(i);
            }
            i = i + 1;
        }
        None
    }

    /// Lists a registration. One of the same profile is replaced.
    pub fn insert(&mut self, advertisement: Advertisement)
        requires
            old(self).wf(),
        ensures
            final(self).wf(),
            final(self)@ == old(self)@.insert(advertisement@),
    {
        let ghost before = advertised_views(self.items@);
        match self.position(advertisement.profile()) {
            Some(i) => {
                self.items.set(i, advertisement);
                proof {
                    assert(before[i as int] == advertisement@);
                    assert(advertised_views(self.items@) =~= before);
                    assert(self@ =~= before.to_set().insert(advertisement@));
                }
            },
            None => {
                self.items.push(advertisement);
                proof {
                    assert(advertised_views(self.items@) =~= before.push(advertisement@));
                    lemma_push_new(before, advertisement@);
                }
            },
        }
    }

    /// Takes every registration under the name and the kind of the profile off the list, and
    /// gives one of them, if there was any.
    pub fn remove_service(&mut self, profile: &OSCQueryServiceProfile) -> (removed: Option<
        Advertisement,
    >)
        requires
            old(self).wf(),
        ensures
            final(self).wf(),
            final(self)@ == other_services(old(self)@, profile@),
            removed is Some <==> has_service(old(self)@, profile@),
            removed matches Some(advertisement) ==> advertisement@.same_service(profile@),
    {
        let ghost all = advertised_views(self.items@);
        let mut removed: Option<Advertisement> = None;
        let mut i: usize = 0;
        while i < self.items.len()
            invariant
                i <= self.items.len(),
                advertised_views(self.items@).no_duplicates(),
                forall|j: int|
                    0 <= j < i ==> !(#[trigger] advertised_views(self.items@)[j]).same_service(
                        profile@,
                    ),
                forall|p: ProfileView| #[trigger]
                    advertised_views(self.items@).contains(p) ==> all.contains(p),
                forall|p: ProfileView| #[trigger]
                    all.contains(p) && !p.same_service(profile@) ==> advertised_views(
                        self.items@,
                    ).contains(p),
                removed is None ==> advertised_views(self.items@) == all,
                removed matches Some(advertisement) ==> all.contains(advertisement@)
                    && advertisement@.same_service(profile@),
            decreases self.items.len() - i,
        {
            let ghost before = advertised_views(self.items@);
            assert(before[i as int] == self.items@[i as int]@);
            let listed = self.items[i].profile();
            if listed.service_type == profile.service_type && listed.name == profile.name {
                assert(before.contains(before[i as int]));
                removed = Some(self.items.remove(i));
                proof {
                    assert(advertised_views(self.items@) =~= before.remove(i as int));
                    lemma_remove_at(before, i as int);
                }
            } else {
                i = i + 1;
            }
        }
        proof {
            assert(self@ =~= other_services(all.to_set(), profile@));
            if removed is Some {
                assert(all.to_set().contains(removed->0@));
            }
        }
        removed
    }

    /// Takes the registration of the profile off the list.
    pub fn remove(&mut self, profile: &OSCQueryServiceProfile) -> (removed: Option<Advertisement>)
        requires
            old(self).wf(),
        ensures
            final(self).wf(),
            final(self)@ == old(self)@.remove(profile@),
            removed is Some <==> old(self)@.contains(profile@),
            removed matches Some(advertisement) ==> advertisement@ == profile@,
    {
        let ghost before = advertised_views(self.items@);
        match self.position(profile) {
            Some(i) => {
                let removed = self.items.remove(i);
                proof {
                    assert(before[i as int] == profile@);
                    assert(advertised_views(self.items@) =~= before.remove(i as int));
                    lemma_remove_at(before, i as int);
                    assert(self@ =~= before.to_set().remove(profile@));
                }
                Some(removed)
            },
            None => {
                assert(self@ =~= before.to_set().remove(profile@));
                None
            },
        }
    }
}

/// Appending what is not listed keeps a list free of repetitions.
proof fn lemma_push_new(s: Seq<ProfileView>, p: ProfileView)
    requires
        s.no_duplicates(),
        !s.to_set().contains(p),
    ensures
        s.push(p).no_duplicates(),
        s.push(p).to_set() == s.to_set().insert(p),
{
    assert forall|q: ProfileView| s.push(p).contains(q) <==> s.contains(q) || q == p by {
        assert(s.push(p)[s.len() as int] == p);
        if s.contains(q) {
            let i = choose|i: int| 0 <= i < s.len() && s[i] == q;
            assert(s.push(p)[i] == q);
        }
    }
    assert(s.push(p).to_set() =~= s.to_set().insert(p));
}

/// In a list free of repetitions, removing one place removes just what stands there.
proof fn lemma_remove_at(s: Seq<ProfileView>, i: int)
    requires
        s.no_duplicates(),
        0 <= i < s.len(),
    ensures
        s.remove(i).no_duplicates(),
        forall|p: ProfileView| #[trigger]
            s.remove(i).contains(p) <==> s.contains(p) && p != s[i],
        forall|j: int| 0 <= j < i ==> #[trigger] s.remove(i)[j] == s[j],
{
    assert forall|p: ProfileView| #[trigger]
        s.remove(i).contains(p) <==> s.contains(p) && p != s[i] by {
        if s.remove(i).contains(p) {
            let j = choose|j: int| 0 <= j < s.remove(i).len() && s.remove(i)[j] == p;
            let k = if j < i { j } else { j + 1 };
            assert(s[k] == p && k != i);
        }
        if s.contains(p) && p != s[i] {
            let k = choose|k: int| 0 <= k < s.len() && s[k] == p;
            let j = if k < i { k } else { k - 1 };
            assert(s.remove(i)[j] == p);
        }
    }
}

} // verus!
