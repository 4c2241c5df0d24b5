//! Ramp-soak profiles: the curve points, one named profile, and the
//! fixed-capacity store of profile slots.
use vstd::prelude::*;
use vstd::array::spec_array_update;

verus! {

/// Characters in a profile name.
pub const NAME_LEN: usize = 6;

/// Curve points in a profile.
pub const POINT_COUNT: usize = 6;

/// Profile slots in the store.
pub const SLOT_COUNT: usize = 16;

/// ASCII space, the filler of a blank name.
pub const BLANK_CHAR: u8 = 32;

/// One waypoint of a ramp: a temperature to reach at a time offset.
#[derive(Clone, Copy, Debug, PartialEq, Eq, PartialOrd, Structural)]
pub struct CurvePoint {
    pub temp: u16,
    pub time_seconds: u16,
    pub disabled: bool,
}

/// A named curve of six points; enabled points are taken in array order.
#[derive(Clone, Copy, Debug, PartialEq, Eq, PartialOrd)]
pub struct Profile {
    pub name: [u8; 6],
    pub points: [CurvePoint; 6],
}

/// The persistent store: sixteen optional slots and the number in use.
#[derive(Clone, Copy, Debug, PartialEq, Eq, PartialOrd)]
pub struct Profiles {
    pub num_profiles: u8,
    pub profiles: [Option<Profile>; 16],
}

pub open spec fn blank_point() -> CurvePoint {
    CurvePoint { temp: 0, time_seconds: 0, disabled: true }
}

/// A point that is switched off and holds zeros.
pub fn disabled_point() -> (r: CurvePoint)
    ensures
        r == blank_point(),
{
    CurvePoint { temp: 0, time_seconds: 0, disabled: true }
}

/// The profile a new slot starts from.
pub open spec fn blank_profile() -> Profile {
    let p = blank_point();
    Profile {
        name: [BLANK_CHAR, BLANK_CHAR, BLANK_CHAR, BLANK_CHAR, BLANK_CHAR, BLANK_CHAR],
        points: [p, p, p, p, p, p],
    }
}

impl Profile {
    /// A freshly created profile: a name of spaces and six disabled zero points.
    pub open spec fn is_blank(&self) -> bool {
        &&& forall|i: int| 0 <= i < NAME_LEN ==> #[trigger] self.name[i] == BLANK_CHAR
        &&& forall|i: int| 0 <= i < POINT_COUNT ==> #[trigger] self.points[i] == blank_point()
    }

    pub fn blank() -> (r: Profile)
        ensures
            r == blank_profile(),
            r.is_blank(),
    {
        let p = disabled_point();
        let r = Profile {
            name: [BLANK_CHAR, BLANK_CHAR, BLANK_CHAR, BLANK_CHAR, BLANK_CHAR, BLANK_CHAR],
            points: [p, p, p, p, p, p],
        };
        proof {
            assert(forall|i: int| 0 <= i < NAME_LEN ==> #[trigger] r.name[i] == BLANK_CHAR);
            assert(forall|i: int| 0 <= i < POINT_COUNT ==> #[trigger] r.points[i] == blank_point());
        }
        r
    }
}

impl Default for Profile {
    fn default() -> (r: Profile)
        ensures
            r == blank_profile(),
    {
        Profile::blank()
    }
}

pub open spec fn occupied(slot: Option<Profile>) -> nat {
    if slot is Some { 1 } else { 0 }
}

/// Number of occupied slots among the first `n` of `s`.
pub open spec fn count_occupied(s: Seq<Option<Profile>>, n: int) -> nat
    decreases n,
{
    if n <= 0 {
        0
    } else {
        count_occupied(s, n - 1) + occupied(s[n - 1])
    }
}

pub proof fn lemma_count_bounded(s: Seq<Option<Profile>>, n: int)
    requires
        0 <= n,
    ensures
        count_occupied(s, n) <= n,
    decreases n,
{
    if n > 0 {
        lemma_count_bounded(s, n - 1);
    }
}

pub proof fn lemma_count_update(s: Seq<Option<Profile>>, n: int, i: int, v: Option<Profile>)
    requires
        0 <= i < s.len(),
        0 <= n <= s.len(),
    ensures
        i < n ==> count_occupied(s.update(i, v), n) + occupied(s[i]) == count_occupied(s, n)
            + occupied(v),
        i >= n ==> count_occupied(s.update(i, v), n) == count_occupied(s, n),
    decreases n,
{
    if n > 0 {
        lemma_count_update(s, n - 1, i, v);
    }
}

pub proof fn lemma_count_all_empty(s: Seq<Option<Profile>>, n: int)
    requires
        0 <= n <= s.len(),
        forall|i: int| 0 <= i < s.len() ==> #[trigger] s[i] is None,
    ensures
        count_occupied(s, n) == 0,
    decreases n,
{
    if n > 0 {
        lemma_count_all_empty(s, n - 1);
    }
}

/// The store with every slot empty.
pub open spec fn empty_store() -> Profiles {
    Profiles {
        num_profiles: 0,
        profiles: [None, None, None, None, None, None, None, None, None, None, None, None, None, None, None, None],
    }
}

/// The store after `p` is written into slot `idx`.
pub open spec fn saved(store: Profiles, idx: u8, p: Profile) -> Profiles {
    let slots = spec_array_update(store.profiles, idx as int, Some(p));
    Profiles { num_profiles: count_occupied(slots@, SLOT_COUNT as int) as u8, profiles: slots }
}

impl Profiles {
    /// The slot contents as a sequence of sixteen entries.
    pub open spec fn slots(&self) -> Seq<Option<Profile>> {
        self.profiles@
    }

    /// The count agrees with the occupied slots.
    pub open spec fn wf(&self) -> bool {
        self.num_profiles as nat == count_occupied(self.slots(), SLOT_COUNT as int)
    }

    pub open spec fn is_empty_store(&self) -> bool {
        &&& self.num_profiles == 0
        &&& forall|i: int| 0 <= i < SLOT_COUNT ==> #[trigger] self.profiles[i] is None
    }

    /// A store with every slot empty.
    pub fn empty() -> (r: Profiles)
        ensures
            r.wf(),
            r.is_empty_store(),
            r == empty_store(),
    {
        let r = Profiles {
            num_profiles: 0,
            profiles: [None, None, None, None, None, None, None, None, None, None, None, None, None, None, None, None],
        };
        proof {
            lemma_count_all_empty(r.slots(), SLOT_COUNT as int);
        }
        r
    }

    /// The store as decoded at boot; a failed decode gives the empty store.
    /// The count is recomputed from the slots, whatever the image held.
    pub fn restore(decoded: Option<Profiles>) -> (r: Profiles)
        ensures
            r.wf(),
            decoded is None ==> r.is_empty_store() && r == empty_store(),
            decoded is Some ==> r.profiles == decoded->Some_0.profiles,
            decoded is Some && decoded->Some_0.wf() ==> r == decoded->Some_0,
    {
        match decoded {
            None => Profiles::empty(),
            Some(d) => {
                let n = Profiles::count(&d.profiles);
                Profiles { num_profiles: n, profiles: d.profiles }
            },
        }
    }

    /// The number of occupied slots.
    pub fn count(slots: &[Option<Profile>; 16]) -> (r: u8)
        ensures
            r as nat == count_occupied(slots@, SLOT_COUNT as int),
    {
        let mut n: u8 = 0;
        let mut i: usize = 0;
        while i < SLOT_COUNT
            invariant
                i <= SLOT_COUNT,
                n as nat == count_occupied(slots@, i as int),
            decreases SLOT_COUNT - i,
        {
            proof {
                lemma_count_bounded(slots@, i as int);
            }
            if slots[i].is_some() {
                n = n + 1;
            }
            i = i + 1;
        }
        n
    }

    /// The profile in slot `idx`, if that slot is in range and occupied.
    pub fn get(&self, idx: u8) -> (r: Option<Profile>)
        ensures
            (idx as int) < SLOT_COUNT ==> r == self.profiles[idx as int],
            (idx as int) >= SLOT_COUNT ==> r is None,
    {
        if (idx as usize) < SLOT_COUNT {
            self.profiles[idx as usize]
        } else {
            None
        }
    }

    /// Writes `p` into slot `idx`, keeping the count in step.
    pub fn store(&mut self, idx: u8, p: Profile)
        requires
            old(self).wf(),
            (idx as int) < SLOT_COUNT,
        ensures
            final(self).wf(),
            final(self).slots() == old(self).slots().update(idx as int, Some(p)),
            *final(self) == saved(*old(self), idx, p),
    {
        let i = idx as usize;
        let was_empty = self.profiles[i].is_none();
        proof {
            lemma_count_update(self.slots(), SLOT_COUNT as int, i as int, Some(p));
            lemma_count_bounded(self.slots().update(i as int, Some(p)), SLOT_COUNT as int);
        }
        self.profiles[i] = Some(p);
        if was_empty {
            self.num_profiles = self.num_profiles + 1;
        }
        proof {
            assert(self.profiles =~= spec_array_update(old(self).profiles, i as int, Some(p)));
        }
    }
}

} // verus!
