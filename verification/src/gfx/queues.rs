use vstd::prelude::*;
use vstd::seq_lib::group_filter_ensures;

verus! {

/// The capabilities of a queue family that queue selection looks at.
#[derive(Clone, Copy, Debug, PartialEq, Eq, Structural)]
pub struct QueueCaps {
    pub graphics: bool,
    pub compute: bool,
    pub transfer: bool,
}

impl QueueCaps {
    /// Every capability of `other` is also one of `self` (an empty `other` is always contained).
    pub open spec fn spec_contains(self, other: QueueCaps) -> bool {
        &&& other.graphics ==> self.graphics
        &&& other.compute ==> self.compute
        &&& other.transfer ==> self.transfer
    }

    /// `self` and `other` share at least one capability.
    pub open spec fn spec_intersects(self, other: QueueCaps) -> bool {
        ||| self.graphics && other.graphics
        ||| self.compute && other.compute
        ||| self.transfer && other.transfer
    }

    pub fn empty() -> (r: QueueCaps)
        ensures
            !r.graphics && !r.compute && !r.transfer,
    {
        QueueCaps { graphics: false, compute: false, transfer: false }
    }

    pub fn graphics_only() -> (r: QueueCaps)
        ensures
            r.graphics && !r.compute && !r.transfer,
    {
        QueueCaps { graphics: true, compute: false, transfer: false }
    }

    pub fn compute_only() -> (r: QueueCaps)
        ensures
            !r.graphics && r.compute && !r.transfer,
    {
        QueueCaps { graphics: false, compute: true, transfer: false }
    }

    pub fn transfer_only() -> (r: QueueCaps)
        ensures
            !r.graphics && !r.compute && r.transfer,
    {
        QueueCaps { graphics: false, compute: false, transfer: true }
    }

    pub fn contains(&self, other: &QueueCaps) -> (r: bool)
        ensures
            r == self.spec_contains(*other),
    {
        (!other.graphics || self.graphics) && (!other.compute || self.compute) && (!other.transfer
            || self.transfer)
    }

    pub fn intersects(&self, other: &QueueCaps) -> (r: bool)
        ensures
            r == self.spec_intersects(*other),
    {
        (self.graphics && other.graphics) || (self.compute && other.compute) || (self.transfer
            && other.transfer)
    }
}

/// The roles a queue can be chosen for.
#[derive(Clone, Copy, Debug, Hash, PartialEq, Eq, Structural)]
pub enum QueueFlag {
    Graphic,
    Transfer,
    Compute,
    AsyncCompute,
    Present,
}

/// A queue family of a physical device.
#[derive(Clone, Copy, Debug, PartialEq, Eq, Structural)]
pub struct Queue {
    pub family_index: usize,
    pub flags: QueueCaps,
    pub support_present: bool,
}

impl Queue {
    pub fn new(family_index: usize, flags: QueueCaps, support_present: bool) -> (r: Queue)
        ensures
            r.family_index == family_index,
            r.flags == flags,
            r.support_present == support_present,
    {
        Queue { family_index, flags, support_present }
    }

    pub fn index(&self) -> (r: usize)
        ensures
            r == self.family_index,
    {
        self.family_index
    }

    pub fn flags(&self) -> (r: &QueueCaps)
        ensures
            *r == self.flags,
    {
        &self.flags
    }
}

/// `q` can serve a role that needs `required` (and presentation when `require_present`).
pub open spec fn passes(q: Queue, required: QueueCaps, require_present: bool) -> bool {
    &&& require_present ==> q.support_present
    &&& q.flags.spec_contains(required)
}

/// The family index that a search over `s` (walked in order) settles on: every family that
/// passes the filter replaces the previous choice, so it is the last one that passes.
pub open spec fn spec_best_suited(s: Seq<Queue>, required: QueueCaps, require_present: bool) -> Option<
    usize,
>
    decreases s.len(),
{
    if s.len() == 0 {
        None
    } else if passes(s.last(), required, require_present) {
        Some(s.last().family_index)
    } else {
        spec_best_suited(s.drop_last(), required, require_present)
    }
}

pub open spec fn other_index(i: usize) -> spec_fn(Queue) -> bool {
    |q: Queue| q.family_index != i
}

/// `s` without the families whose index is `idx` (unchanged when `idx` is `None`).
pub open spec fn without(s: Seq<Queue>, idx: Option<usize>) -> Seq<Queue> {
    match idx {
        Some(i) => s.filter(other_index(i)),
        None => s,
    }
}

pub open spec fn or_else(a: Option<usize>, b: Option<usize>) -> Option<usize> {
    match a {
        Some(x) => Some(x),
        None => b,
    }
}

pub open spec fn caps(graphics: bool, compute: bool, transfer: bool) -> QueueCaps {
    QueueCaps { graphics, compute, transfer }
}

/// The family index chosen for each role.
#[derive(Clone, Copy, Debug, PartialEq, Eq, Structural)]
pub struct QueueSelection {
    pub graphic: Option<usize>,
    pub compute: Option<usize>,
    pub async_compute: Option<usize>,
    pub transfer: Option<usize>,
    pub present: Option<usize>,
}

/// The present queue: a presenting family other than the graphic one, preferring one that is
/// not the compute family either.
pub open spec fn spec_present_choice(s: Seq<Queue>, graphic: Option<usize>, compute: Option<usize>) -> Option<usize> {
    let any = caps(false, false, false);
    match graphic {
        Some(g) => or_else(
            spec_best_suited(without(without(s, Some(g)), compute), any, true),
            spec_best_suited(without(s, Some(g)), any, true),
        ),
        None => spec_best_suited(s, any, true),
    }
}

/// The roles given to the families `s`, walked in order.
pub open spec fn spec_select(s: Seq<Queue>) -> QueueSelection {
    let compute = spec_best_suited(s, caps(false, true, false), false);
    let transfer_any = spec_best_suited(s, caps(false, false, true), false);
    let graphic = spec_best_suited(s, caps(true, false, false), false);
    let present = spec_present_choice(s, graphic, compute);
    let rest = without(without(s, graphic), present);
    let async_compute = spec_best_suited(rest, caps(false, true, false), false);
    let dedicated_transfer = spec_best_suited(
        without(rest, async_compute),
        caps(false, false, true),
        false,
    );
    QueueSelection {
        graphic,
        compute,
        async_compute,
        transfer: or_else(dedicated_transfer, transfer_any),
        present,
    }
}

pub open spec fn spec_role(sel: QueueSelection, flag: QueueFlag) -> Option<usize> {
    match flag {
        QueueFlag::Graphic => sel.graphic,
        QueueFlag::Transfer => sel.transfer,
        QueueFlag::Compute => sel.compute,
        QueueFlag::AsyncCompute => sel.async_compute,
        QueueFlag::Present => sel.present,
    }
}

/// Walks `queues` in order and returns the family it settles on for `required`
/// (`desired` only weighs a score that the choice does not depend on).
pub fn find_best_suited_queue(
    queues: &Vec<Queue>,
    required: &QueueCaps,
    require_present: bool,
    desired: &Vec<QueueCaps>,
) -> (r: Option<usize>)
    ensures
        r == spec_best_suited(queues@, *required, require_present),
{
    let mut high_score: u128 = 0;
    let mut best_queue: Option<usize> = None;
    let mut i: usize = 0;
    while i < queues.len()
        invariant
            i <= queues.len(),
            best_queue == spec_best_suited(queues@.take(i as int), *required, require_present),
        decreases queues.len() - i,
    {
        let queue = &queues[i];
        assert(queues@.take(i + 1).drop_last() =~= queues@.take(i as int));
        assert(queues@.take(i + 1).last() == queues@[i as int]);
        if (!require_present || queue.support_present) && queue.flags.contains(required) {
            best_queue = Some(queue.family_index);
            let max_value = desired.len() as u128;
            let mut score: u128 = 0;
            let mut power: usize = 0;
            while power < desired.len()
                invariant
                    power <= desired.len(),
                    max_value == desired.len(),
                    max_value <= 0xFFFF_FFFF_FFFF_FFFF,
                    score <= power * max_value,
                decreases desired.len() - power,
            {
                if queue.flags.contains(&desired[power]) {
                    assert(score + (max_value - power) <= (power + 1) * max_value) by (nonlinear_arith)
                        requires
                            score <= power * max_value,
                            power < max_value,
                    ;
                    assert((power + 1) * max_value <= 0xFFFF_FFFF_FFFF_FFFF * 0xFFFF_FFFF_FFFF_FFFF) by (nonlinear_arith)
                        requires
                            power < max_value,
                            max_value <= 0xFFFF_FFFF_FFFF_FFFF,
                    ;
                    score = score + (max_value - power as u128);
                } else {
                    assert(power * max_value <= (power + 1) * max_value) by (nonlinear_arith);
                }
                power = power + 1;
            }
            if score > high_score {
                high_score = score;
                best_queue = Some(queue.family_index);
            }
        }
        i = i + 1;
    }
    assert(queues@.take(queues.len() as int) =~= queues@);
    best_queue
}

/// The families of `queues` whose index is not `index` (all of them when `index` is `None`).
pub fn remove_family(queues: &Vec<Queue>, index: Option<usize>) -> (r: Vec<Queue>)
    ensures
        r@ == without(queues@, index),
{
    let mut out: Vec<Queue> = Vec::new();
    match index {
        None => {
            let mut i: usize = 0;
            while i < queues.len()
                invariant
                    i <= queues.len(),
                    out@ == queues@.take(i as int),
                decreases queues.len() - i,
            {
                out.push(queues[i]);
                assert(queues@.take(i + 1) =~= queues@.take(i as int).push(queues@[i as int]));
                i = i + 1;
            }
            assert(queues@.take(queues.len() as int) =~= queues@);
        },
        Some(idx) => {
            let mut i: usize = 0;
            while i < queues.len()
                invariant
                    i <= queues.len(),
                    out@ == queues@.take(i as int).filter(other_index(idx)),
                decreases queues.len() - i,
            {
                assert(queues@.take(i + 1) =~= queues@.take(i as int).push(queues@[i as int]));
                proof {
                    queues@.take(i as int).lemma_filter_push(queues@[i as int], other_index(idx));
                }
                if queues[i].family_index != idx {
                    out.push(queues[i]);
                }
                i = i + 1;
            }
            assert(queues@.take(queues.len() as int) =~= queues@);
        },
    }
    out
}


/// The roles given to `families`, walked in order: compute and transfer fall back on any
/// capable family, the graphic family is the one settled on among graphic-capable families,
/// the present family is never the graphic one, and the asynchronous compute and dedicated
/// transfer families are looked for among the families left over.
pub fn select_queues(families: &Vec<Queue>) -> (r: QueueSelection)
    ensures
        r == spec_select(families@),
{
    let no_preference: Vec<QueueCaps> = Vec::new();
    let compute = find_best_suited_queue(families, &QueueCaps::compute_only(), false, &no_preference);
    let transfer_any = find_best_suited_queue(
        families,
        &QueueCaps::transfer_only(),
        false,
        &no_preference,
    );
    let graphic_preference = vec![QueueCaps { graphics: false, compute: true, transfer: true }];
    let graphic = find_best_suited_queue(
        families,
        &QueueCaps::graphics_only(),
        false,
        &graphic_preference,
    );
    let present = match graphic {
        Some(g) => {
            let no_graphic = remove_family(families, Some(g));
            let no_graphic_no_compute = remove_family(&no_graphic, compute);
            match find_best_suited_queue(
                &no_graphic_no_compute,
                &QueueCaps::empty(),
                true,
                &no_preference,
            ) {
                Some(p) => Some(p),
                None => find_best_suited_queue(&no_graphic, &QueueCaps::empty(), true, &no_preference),
            }
        },
        None => find_best_suited_queue(families, &QueueCaps::empty(), true, &no_preference),
    };
    let rest = remove_family(&remove_family(families, graphic), present);
    let async_compute = find_best_suited_queue(&rest, &QueueCaps::compute_only(), false, &no_preference);
    let rest_for_transfer = remove_family(&rest, async_compute);
    let transfer = match find_best_suited_queue(
        &rest_for_transfer,
        &QueueCaps::transfer_only(),
        false,
        &no_preference,
    ) {
        Some(t) => Some(t),
        None => transfer_any,
    };
    QueueSelection { graphic, compute, async_compute, transfer, present }
}

/// The families of a device, one per entry of `properties`, numbered in order.
pub open spec fn spec_families(properties: Seq<QueueCaps>, present_support: Seq<bool>) -> Seq<Queue> {
    Seq::new(
        properties.len(),
        |i: int| Queue { family_index: i as usize, flags: properties[i], support_present: present_support[i] },
    )
}

/// The queue families of a physical device and the role each one was chosen for.
pub struct Queues {
    families: Vec<Queue>,
    preferred: QueueSelection,
}

impl Queues {
    pub closed spec fn spec_families(&self) -> Seq<Queue> {
        self.families@
    }

    pub closed spec fn spec_selection(&self) -> QueueSelection {
        self.preferred
    }

    pub closed spec fn wf(&self) -> bool {
        self.preferred == spec_select(self.families@)
    }

    /// Numbers the families of a device in order and chooses a family for each role.
    pub fn search(properties: &Vec<QueueCaps>, present_support: &Vec<bool>) -> (r: Queues)
        requires
            properties.len() == present_support.len(),
        ensures
            r.wf(),
            r.spec_families() == spec_families(properties@, present_support@),
            r.spec_selection() == spec_select(spec_families(properties@, present_support@)),
    {
        let mut families: Vec<Queue> = Vec::new();
        let mut i: usize = 0;
        while i < properties.len()
            invariant
                i <= properties.len(),
                properties.len() == present_support.len(),
                families@ =~= spec_families(properties@, present_support@).take(i as int),
            decreases properties.len() - i,
        {
            families.push(Queue { family_index: i, flags: properties[i], support_present: present_support[i] });
            i = i + 1;
        }
        assert(families@ =~= spec_families(properties@, present_support@));
        let preferred = select_queues(&families);
        Queues { families, preferred }
    }

    pub fn families(&self) -> (r: &Vec<Queue>)
        ensures
            r@ == self.spec_families(),
    {
        &self.families
    }

    pub fn selection(&self) -> (r: QueueSelection)
        ensures
            r == self.spec_selection(),
    {
        self.preferred
    }

    /// The family chosen for `flag`, if any.
    pub fn find_queue(&self, flag: &QueueFlag) -> (r: Option<&Queue>)
        requires
            self.wf(),
        ensures
            match spec_role(self.spec_selection(), *flag) {
                None => r is None,
                Some(i) => r is Some && r.unwrap().family_index == i && self.spec_families().contains(
                    *r.unwrap(),
                ),
            },
    {
        let role = match flag {
            QueueFlag::Graphic => self.preferred.graphic,
            QueueFlag::Transfer => self.preferred.transfer,
            QueueFlag::Compute => self.preferred.compute,
            QueueFlag::AsyncCompute => self.preferred.async_compute,
            QueueFlag::Present => self.preferred.present,
        };
        assert(role == spec_role(self.spec_selection(), *flag));
        match role {
            None => None,
            Some(idx) => {
                proof {
                    lemma_selection_members(self.families@);
                }
                let mut i: usize = 0;
                while i < self.families.len()
                    invariant
                        i <= self.families.len(),
                        forall|j: int| 0 <= j < i ==> self.families@[j].family_index != idx,
                        exists|q: Queue| self.families@.contains(q) && q.family_index == idx,
                        spec_role(self.spec_selection(), *flag) == Some(idx),
                    decreases self.families.len() - i,
                {
                    if self.families[i].family_index == idx {
                        let found = &self.families[i];
                        assert(self.families@.contains(self.families@[i as int]));
                        assert(*found == self.families@[i as int]);
                        return Some(found);
                    }
                    i = i + 1;
                }
                proof {
                    let q = choose|q: Queue| self.families@.contains(q) && q.family_index == idx;
                    let j = choose|j: int| 0 <= j < self.families@.len() && self.families@[j] == q;
                    assert(self.families@[j].family_index == idx);
                }
                None
            },
        }
    }
}

/// What `spec_best_suited` settles on is a family of `s` that passes the filter, and it
/// settles on nothing only when no family of `s` passes.
pub proof fn lemma_best_suited_member(s: Seq<Queue>, required: QueueCaps, require_present: bool)
    ensures
        match spec_best_suited(s, required, require_present) {
            Some(i) => exists|q: Queue| #[trigger]
                s.contains(q) && q.family_index == i && passes(q, required, require_present),
            None => forall|q: Queue| #[trigger] s.contains(q) ==> !passes(q, required, require_present),
        },
    decreases s.len(),
{
    if s.len() > 0 {
        let rest = s.drop_last();
        let last = s.last();
        lemma_best_suited_member(rest, required, require_present);
        assert(s[s.len() - 1] == last);
        assert(s.contains(last));
        if passes(last, required, require_present) {
            assert(s.contains(last) && last.family_index == last.family_index && passes(
                last,
                required,
                require_present,
            ));
        } else {
            match spec_best_suited(rest, required, require_present) {
                Some(i) => {
                    let q = choose|q: Queue|
                        #[trigger] rest.contains(q) && q.family_index == i && passes(
                            q,
                            required,
                            require_present,
                        );
                    let j = choose|j: int| 0 <= j < rest.len() && rest[j] == q;
                    assert(s[j] == q);
                    assert(s.contains(q));
                },
                None => {
                    assert forall|q: Queue| #[trigger] s.contains(q) implies !passes(
                        q,
                        required,
                        require_present,
                    ) by {
                        let j = choose|j: int| 0 <= j < s.len() && s[j] == q;
                        if j < s.len() - 1 {
                            assert(rest[j] == q);
                            assert(rest.contains(q));
                        }
                    }
                },
            }
        }
    }
}

/// The families left by `without` are those of `s` whose index is not the removed one.
pub proof fn lemma_without_member(s: Seq<Queue>, idx: Option<usize>, q: Queue)
    ensures
        without(s, idx).contains(q) <==> (s.contains(q) && idx != Some(q.family_index)),
{
    broadcast use group_filter_ensures;
    match idx {
        None => {},
        Some(i) => {
            if without(s, idx).contains(q) {
                s.lemma_filter_contains_rev(other_index(i), q);
                let j = choose|j: int| 0 <= j < s.filter(other_index(i)).len() && s.filter(other_index(i))[j] == q;
                assert((other_index(i))(s.filter(other_index(i))[j]));
            }
            if s.contains(q) && idx != Some(q.family_index) {
                let j = choose|j: int| 0 <= j < s.len() && s[j] == q;
                s.lemma_filter_contains(other_index(i), j);
            }
        },
    }
}

/// The members of `without(s, idx)` are members of `s`.
pub proof fn lemma_without_subset(s: Seq<Queue>, idx: Option<usize>)
    ensures
        forall|q: Queue| #[trigger] without(s, idx).contains(q) ==> s.contains(q),
{
    assert forall|q: Queue| #[trigger] without(s, idx).contains(q) implies s.contains(q) by {
        lemma_without_member(s, idx, q);
    }
}

/// A family that `spec_best_suited` settles on over a part of `s` is a family of `s`.
proof fn lemma_best_in(part: Seq<Queue>, s: Seq<Queue>, required: QueueCaps, require_present: bool)
    requires
        forall|q: Queue| #[trigger] part.contains(q) ==> s.contains(q),
    ensures
        spec_best_suited(part, required, require_present) matches Some(i) ==> exists|q: Queue|
            #[trigger] s.contains(q) && q.family_index == i && passes(q, required, require_present),
{
    lemma_best_suited_member(part, required, require_present);
    if let Some(i) = spec_best_suited(part, required, require_present) {
        let q = choose|q: Queue|
            #[trigger] part.contains(q) && q.family_index == i && passes(q, required, require_present);
        assert(s.contains(q));
    }
}

/// Each role that is given goes to a family of `s` that can serve it.
pub proof fn lemma_selection_members(s: Seq<Queue>)
    ensures
        ({
            let sel = spec_select(s);
            &&& sel.graphic matches Some(g) ==> exists|q: Queue| #[trigger]
                s.contains(q) && q.family_index == g && q.flags.graphics
            &&& sel.compute matches Some(c) ==> exists|q: Queue| #[trigger]
                s.contains(q) && q.family_index == c && q.flags.compute
            &&& sel.async_compute matches Some(a) ==> exists|q: Queue| #[trigger]
                s.contains(q) && q.family_index == a && q.flags.compute
            &&& sel.transfer matches Some(t) ==> exists|q: Queue| #[trigger]
                s.contains(q) && q.family_index == t && q.flags.transfer
            &&& sel.present matches Some(p) ==> exists|q: Queue| #[trigger]
                s.contains(q) && q.family_index == p && q.support_present
        }),
{
    let sel = spec_select(s);
    let none = caps(false, false, false);
    let cc = caps(false, true, false);
    let tc = caps(false, false, true);
    let gc = caps(true, false, false);
    lemma_best_in(s, s, cc, false);
    lemma_best_in(s, s, tc, false);
    lemma_best_in(s, s, gc, false);
    let rest0 = without(s, sel.graphic);
    let rest = without(rest0, sel.present);
    lemma_without_subset(s, sel.graphic);
    lemma_without_subset(rest0, sel.present);
    assert forall|q: Queue| #[trigger] rest.contains(q) implies s.contains(q) by {
        assert(rest0.contains(q));
    }
    lemma_best_in(rest, s, cc, false);
    let rest2 = without(rest, sel.async_compute);
    lemma_without_subset(rest, sel.async_compute);
    assert forall|q: Queue| #[trigger] rest2.contains(q) implies s.contains(q) by {
        assert(rest.contains(q));
    }
    lemma_best_in(rest2, s, tc, false);
    match sel.graphic {
        Some(g) => {
            let ng = without(s, Some(g));
            let ngc = without(ng, sel.compute);
            lemma_without_subset(s, Some(g));
            lemma_without_subset(ng, sel.compute);
            assert forall|q: Queue| #[trigger] ngc.contains(q) implies s.contains(q) by {
                assert(ng.contains(q));
            }
            lemma_best_in(ng, s, none, true);
            lemma_best_in(ngc, s, none, true);
        },
        None => {
            lemma_best_in(s, s, none, true);
        },
    }
}

/// Separation of the roles: the present family is never the graphic one, the asynchronous
/// compute family is neither the graphic nor the present one, a role is left empty only
/// when no family can serve it (the present role: no family but the graphic one), and the
/// transfer role goes to a family apart from the other roles whenever one exists.
pub proof fn lemma_selection_separation(s: Seq<Queue>)
    ensures
        ({
            let sel = spec_select(s);
            &&& (sel.present is Some && sel.graphic is Some) ==> sel.present != sel.graphic
            &&& sel.async_compute matches Some(a) ==> (Some(a) != sel.graphic && Some(a)
                != sel.present)
            &&& sel.graphic is None <==> (forall|q: Queue| #[trigger] s.contains(q) ==> !q.flags.graphics)
            &&& sel.compute is None <==> (forall|q: Queue| #[trigger] s.contains(q) ==> !q.flags.compute)
            &&& sel.transfer is None <==> (forall|q: Queue| #[trigger] s.contains(q) ==> !q.flags.transfer)
            &&& sel.present is None ==> (forall|q: Queue| #[trigger]
                s.contains(q) && q.support_present ==> sel.graphic == Some(q.family_index))
            &&& (exists|q: Queue| #[trigger]
                s.contains(q) && q.flags.transfer && sel.graphic != Some(q.family_index)
                    && sel.present != Some(q.family_index) && sel.async_compute != Some(q.family_index))
                ==> (sel.transfer matches Some(t) && sel.graphic != Some(t) && sel.present != Some(t)
                && sel.async_compute != Some(t))
        }),
{
    let sel = spec_select(s);
    let none = caps(false, false, false);
    let cc = caps(false, true, false);
    let tc = caps(false, false, true);
    let gc = caps(true, false, false);
    lemma_selection_members(s);
    lemma_best_suited_member(s, cc, false);
    lemma_best_suited_member(s, tc, false);
    lemma_best_suited_member(s, gc, false);
    let rest0 = without(s, sel.graphic);
    let rest = without(rest0, sel.present);
    let rest2 = without(rest, sel.async_compute);
    lemma_best_suited_member(rest, cc, false);
    lemma_best_suited_member(rest2, tc, false);
    // present is never the graphic family
    match sel.graphic {
        Some(g) => {
            let ng = without(s, Some(g));
            let ngc = without(ng, sel.compute);
            lemma_best_suited_member(ng, none, true);
            lemma_best_suited_member(ngc, none, true);
            if let Some(p) = sel.present {
                match spec_best_suited(ngc, none, true) {
                    Some(_) => {
                        let q = choose|q: Queue|
                            #[trigger] ngc.contains(q) && q.family_index == p && passes(q, none, true);
                        lemma_without_member(ng, sel.compute, q);
                        lemma_without_member(s, Some(g), q);
                    },
                    None => {
                        let q = choose|q: Queue|
                            #[trigger] ng.contains(q) && q.family_index == p && passes(q, none, true);
                        lemma_without_member(s, Some(g), q);
                    },
                }
            } else {
                assert forall|q: Queue| #[trigger]
                    s.contains(q) && q.support_present implies sel.graphic == Some(q.family_index) by {
                    lemma_without_member(s, Some(g), q);
                    if q.family_index != g {
                        assert(ng.contains(q));
                        assert(passes(q, none, true));
                    }
                }
            }
        },
        None => {
            lemma_best_suited_member(s, none, true);
            if sel.present is None {
                assert forall|q: Queue| #[trigger]
                    s.contains(q) && q.support_present implies sel.graphic == Some(q.family_index) by {
                    assert(passes(q, none, true));
                }
            }
        },
    }
    // the asynchronous compute family is taken from what graphic and present left
    if let Some(a) = sel.async_compute {
        let q = choose|q: Queue| #[trigger] rest.contains(q) && q.family_index == a && passes(q, cc, false);
        lemma_without_member(rest0, sel.present, q);
        lemma_without_member(s, sel.graphic, q);
    }
    // roles left empty
    if sel.graphic is None {
        assert forall|q: Queue| #[trigger] s.contains(q) implies !q.flags.graphics by {
            assert(!passes(q, gc, false));
        }
    }
    if sel.compute is None {
        assert forall|q: Queue| #[trigger] s.contains(q) implies !q.flags.compute by {
            assert(!passes(q, cc, false));
        }
    }
    if sel.transfer is None {
        assert forall|q: Queue| #[trigger] s.contains(q) implies !q.flags.transfer by {
            assert(!passes(q, tc, false));
        }
    }
    // a transfer family apart from the other roles is found when there is one
    if exists|q: Queue| #[trigger]
        s.contains(q) && q.flags.transfer && sel.graphic != Some(q.family_index) && sel.present
            != Some(q.family_index) && sel.async_compute != Some(q.family_index) {
        let q = choose|q: Queue| #[trigger]
            s.contains(q) && q.flags.transfer && sel.graphic != Some(q.family_index) && sel.present
                != Some(q.family_index) && sel.async_compute != Some(q.family_index);
        lemma_without_member(s, sel.graphic, q);
        lemma_without_member(rest0, sel.present, q);
        lemma_without_member(rest, sel.async_compute, q);
        assert(rest2.contains(q));
        assert(passes(q, tc, false));
        let t = spec_best_suited(rest2, tc, false)->Some_0;
        let w = choose|w: Queue| #[trigger] rest2.contains(w) && w.family_index == t && passes(w, tc, false);
        lemma_without_member(rest, sel.async_compute, w);
        lemma_without_member(rest0, sel.present, w);
        lemma_without_member(s, sel.graphic, w);
    }
}

/// The capabilities asked for by `requirements` (asynchronous compute asks for compute).
pub open spec fn spec_required_caps(requirements: Seq<QueueFlag>) -> QueueCaps {
    QueueCaps {
        graphics: requirements.contains(QueueFlag::Graphic),
        compute: requirements.contains(QueueFlag::Compute) || requirements.contains(
            QueueFlag::AsyncCompute,
        ),
        transfer: requirements.contains(QueueFlag::Transfer),
    }
}

/// `q` shares a capability with what `requirements` asks for, and presents when asked to.
pub open spec fn meets_requirements(q: Queue, requirements: Seq<QueueFlag>) -> bool {
    &&& q.flags.spec_intersects(spec_required_caps(requirements))
    &&& requirements.contains(QueueFlag::Present) ==> q.support_present
}

impl Queues {
    /// The first of `queues` that shares a capability with `requirements` and presents when
    /// `requirements` asks for presentation. A list that asks for presentation alone asks for
    /// no capability, so no queue meets it.
    pub fn require_family_in_queues(requirements: Vec<QueueFlag>, queues: &[Queue]) -> (r: Option<&Queue>)
        ensures
            match r {
                Some(q) => exists|i: int|
                    0 <= i < queues@.len() && queues@[i] == *q && meets_requirements(
                        queues@[i],
                        requirements@,
                    ) && forall|j: int| 0 <= j < i ==> !meets_requirements(#[trigger] queues@[j], requirements@),
                None => forall|j: int|
                    0 <= j < queues@.len() ==> !meets_requirements(#[trigger] queues@[j], requirements@),
            },
    {
        let mut flags = QueueCaps::empty();
        let mut require_present = false;
        let mut k: usize = 0;
        while k < requirements.len()
            invariant
                k <= requirements.len(),
                flags == spec_required_caps(requirements@.take(k as int)),
                require_present == requirements@.take(k as int).contains(QueueFlag::Present),
            decreases requirements.len() - k,
        {
            let ghost before = requirements@.take(k as int);
            assert(requirements@.take(k + 1) =~= before.push(requirements@[k as int]));
            proof {
                broadcast use vstd::seq_lib::group_seq_properties;
                assert forall|f: QueueFlag| #[trigger] requirements@.take(k + 1).contains(f) <==> (
                before.contains(f) || f == requirements@[k as int]) by {}
            }
            match requirements[k] {
                QueueFlag::Graphic => { flags.graphics = true; },
                QueueFlag::Transfer => { flags.transfer = true; },
                QueueFlag::Compute => { flags.compute = true; },
                QueueFlag::Present => { require_present = true; },
                QueueFlag::AsyncCompute => { flags.compute = true; },
            }
            k = k + 1;
        }
        assert(requirements@.take(requirements.len() as int) =~= requirements@);
        let mut i: usize = 0;
        while i < queues.len()
            invariant
                i <= queues.len(),
                flags == spec_required_caps(requirements@),
                require_present == requirements@.contains(QueueFlag::Present),
                forall|j: int| 0 <= j < i ==> !meets_requirements(#[trigger] queues@[j], requirements@),
            decreases queues.len() - i,
        {
            let queue = &queues[i];
            if queue.flags.intersects(&flags) && (!require_present || queue.support_present) {
                return Some(queue);
            }
            i = i + 1;
        }
        None
    }

    /// The chosen family of each role, in the order graphic, compute, asynchronous compute,
    /// transfer, present; roles left empty are skipped.
    pub fn preferred(&self) -> (r: Vec<(QueueFlag, usize)>)
        ensures
            r@ == spec_preferred(self.spec_selection()),
    {
        let sel = self.preferred;
        let mut out: Vec<(QueueFlag, usize)> = Vec::new();
        if let Some(g) = sel.graphic {
            out.push((QueueFlag::Graphic, g));
        }
        if let Some(c) = sel.compute {
            out.push((QueueFlag::Compute, c));
        }
        if let Some(a) = sel.async_compute {
            out.push((QueueFlag::AsyncCompute, a));
        }
        if let Some(t) = sel.transfer {
            out.push((QueueFlag::Transfer, t));
        }
        if let Some(p) = sel.present {
            out.push((QueueFlag::Present, p));
        }
        out
    }
}

pub open spec fn push_role(s: Seq<(QueueFlag, usize)>, flag: QueueFlag, role: Option<usize>) -> Seq<
    (QueueFlag, usize),
> {
    match role {
        Some(i) => s.push((flag, i)),
        None => s,
    }
}

/// The roles of `sel` that are given, with their family, in the order graphic, compute,
/// asynchronous compute, transfer, present.
pub open spec fn spec_preferred(sel: QueueSelection) -> Seq<(QueueFlag, usize)> {
    push_role(
        push_role(
            push_role(
                push_role(push_role(Seq::empty(), QueueFlag::Graphic, sel.graphic), QueueFlag::Compute, sel.compute),
                QueueFlag::AsyncCompute,
                sel.async_compute,
            ),
            QueueFlag::Transfer,
            sel.transfer,
        ),
        QueueFlag::Present,
        sel.present,
    )
}

/// The position of the group of family `family` in `groups`, if there is one.
pub open spec fn spec_group_index(groups: Seq<(usize, Seq<QueueFlag>)>, family: usize) -> Option<int>
    decreases groups.len(),
{
    if groups.len() == 0 {
        None
    } else if groups.last().0 == family {
        Some(groups.len() - 1)
    } else {
        spec_group_index(groups.drop_last(), family)
    }
}

/// The roles of `p` grouped by family, families in order of first appearance, roles of a
/// family in order.
pub open spec fn spec_group(p: Seq<(QueueFlag, usize)>) -> Seq<(usize, Seq<QueueFlag>)>
    decreases p.len(),
{
    if p.len() == 0 {
        Seq::empty()
    } else {
        let groups = spec_group(p.drop_last());
        let (flag, family) = p.last();
        match spec_group_index(groups, family) {
            Some(k) => groups.update(k, (family, groups[k].1.push(flag))),
            None => groups.push((family, seq![flag])),
        }
    }
}

proof fn lemma_group_index(groups: Seq<(usize, Seq<QueueFlag>)>, family: usize)
    ensures
        match spec_group_index(groups, family) {
            Some(k) => 0 <= k < groups.len() && groups[k].0 == family,
            None => forall|j: int| 0 <= j < groups.len() ==> groups[j].0 != family,
        },
    decreases groups.len(),
{
    if groups.len() > 0 {
        lemma_group_index(groups.drop_last(), family);
        assert forall|j: int| 0 <= j < groups.len() - 1 implies groups.drop_last()[j] == groups[j] by {}
    }
}

fn group_index(groups: &Vec<(usize, Vec<QueueFlag>)>, family: usize) -> (r: Option<usize>)
    ensures
        match r {
            Some(k) => spec_group_index(groups@.map_values(|g: (usize, Vec<QueueFlag>)| (g.0, g.1@)), family) == Some(k as int),
            None => spec_group_index(groups@.map_values(|g: (usize, Vec<QueueFlag>)| (g.0, g.1@)), family) is None,
        },
{
    let ghost view = groups@.map_values(|g: (usize, Vec<QueueFlag>)| (g.0, g.1@));
    let mut k = groups.len();
    assert(view.take(k as int) =~= view);
    while k > 0
        invariant
            k <= groups.len(),
            view == groups@.map_values(|g: (usize, Vec<QueueFlag>)| (g.0, g.1@)),
            spec_group_index(view, family) == spec_group_index(view.take(k as int), family),
        decreases k,
    {
        assert(view.take(k as int).drop_last() =~= view.take(k - 1));
        if groups[k - 1].0 == family {
            return Some(k - 1);
        }
        k = k - 1;
    }
    None
}

impl Queues {
    /// The chosen roles grouped by family: each family with a role appears once, in the order
    /// its first role comes in `preferred`, with its roles in that order.
    pub fn unique_families(&self) -> (r: Vec<(usize, Vec<QueueFlag>)>)
        ensures
            r@.map_values(|g: (usize, Vec<QueueFlag>)| (g.0, g.1@)) == spec_group(spec_preferred(self.spec_selection())),
    {
        let preferred = self.preferred();
        let ghost p = preferred@;
        let mut groups: Vec<(usize, Vec<QueueFlag>)> = Vec::new();
        let mut i: usize = 0;
        while i < preferred.len()
            invariant
                i <= preferred.len(),
                p == preferred@,
                groups@.map_values(|g: (usize, Vec<QueueFlag>)| (g.0, g.1@)) == spec_group(p.take(i as int)),
            decreases preferred.len() - i,
        {
            let (flag, family) = preferred[i];
            let ghost before = groups@.map_values(|g: (usize, Vec<QueueFlag>)| (g.0, g.1@));
            assert(p.take(i + 1).drop_last() =~= p.take(i as int));
            assert(p.take(i + 1).last() == p[i as int]);
            proof {
                lemma_group_index(before, family);
            }
            match group_index(&groups, family) {
                Some(k) => {
                    let mut entry: (usize, Vec<QueueFlag>) = (0, Vec::new());
                    std::mem::swap(&mut entry, &mut groups[k]);
                    entry.1.push(flag);
                    std::mem::swap(&mut entry, &mut groups[k]);
                    assert(groups@.map_values(|g: (usize, Vec<QueueFlag>)| (g.0, g.1@)) =~= before.update(k as int, (family, before[k as int].1.push(flag))));
                },
                None => {
                    let mut flags: Vec<QueueFlag> = Vec::new();
                    flags.push(flag);
                    groups.push((family, flags));
                    assert(groups@.map_values(|g: (usize, Vec<QueueFlag>)| (g.0, g.1@)) =~= before.push((family, seq![flag])));
                },
            }
            i = i + 1;
        }
        assert(p.take(preferred.len() as int) =~= p);
        groups
    }
}

} // verus!
