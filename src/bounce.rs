use vstd::prelude::*;

verus! {

/// How a surface interaction ends: `NormalHit` lets the ray go on
/// bouncing, `LastHit` ends its path (it escaped to the sky or reached a
/// light source).
#[derive(Clone, Copy, Debug, PartialEq, Eq, Structural)]
pub enum HitKind {
    NormalHit,
    LastHit,
}

/// What the tracer of one camera ray does next.
#[derive(Clone, Copy, Debug, PartialEq, Eq, Structural)]
pub enum BounceAction {
    /// Intersect the current ray with every object of the scene and hand the
    /// responses to `RayBouncer::advance`.
    Intersect,
    /// The path is over: the current ray's carried color is the sample.
    Finish,
}

/// Index `i` is the nearest of the responses whose distances are ordered by
/// `keys`: no response is nearer, and every earlier one is strictly farther.
pub open spec fn is_nearest(keys: Seq<u32>, i: int) -> bool {
    &&& 0 <= i < keys.len()
    &&& forall|j: int| 0 <= j < keys.len() ==> keys[i] <= keys[j]
    &&& forall|j: int| 0 <= j < i ==> keys[i] < keys[j]
}

/// Picks the nearest of the objects' responses to one ray. `keys[j]` orders
/// the hit distance that object `j` reported (a miss reports the largest
/// distance); of equally near responses the earliest wins. `None` when the
/// scene holds no object.
pub fn nearest_response(keys: &Vec<u32>) -> (r: Option<usize>)
    ensures
        match r {
            None => keys@.len() == 0,
            Some(i) => is_nearest(keys@, i as int),
        },
{
    if keys.len() == 0 {
        return None;
    }
    let mut best: usize = 0;
    let mut j: usize = 1;
    while j < keys.len()
        invariant
            1 <= j <= keys@.len(),
            best < j,
            forall|k: int| 0 <= k < j ==> keys@[best as int] <= keys@[k],
            forall|k: int| 0 <= k < best ==> keys@[best as int] < keys@[k],
        decreases keys@.len() - j,
    {
        if keys[j] < keys[best] {
            best = j;
        }
        j = j + 1;
    }
    Some(best)
}

/// Two indices that are both the nearest response are the same: the choice
/// among the objects' responses is determined by their distances alone.
pub proof fn lemma_nearest_unique(keys: Seq<u32>, i: int, k: int)
    requires
        is_nearest(keys, i),
        is_nearest(keys, k),
    ensures
        i == k,
{
    if i < k {
        assert(keys[k] < keys[i]);
    } else if k < i {
        assert(keys[i] < keys[k]);
    }
}

/// The abstract state of one ray's bounce sequence.
pub struct BouncerView {
    /// Bounces taken so far.
    pub depth: nat,
    /// The most bounces the ray may take.
    pub max_depth: nat,
    /// How the latest interaction ended.
    pub kind: HitKind,
}

impl BouncerView {
    /// The path is over: the bounce budget is spent or the latest
    /// interaction ended it.
    pub open spec fn finished(self) -> bool {
        self.depth >= self.max_depth || self.kind == HitKind::LastHit
    }

    /// The state after one bounce whose nearest response is `chosen`
    /// (`None`: the scene is empty and the ray escapes).
    pub open spec fn after(self, chosen: Option<int>, kinds: Seq<HitKind>) -> BouncerView {
        BouncerView {
            depth: self.depth + 1,
            max_depth: self.max_depth,
            kind: match chosen {
                Some(i) => kinds[i],
                None => HitKind::LastHit,
            },
        }
    }
}

/// The decisions of the bounce engine for one camera ray: it counts the
/// bounces against the budget, picks the nearest response at each bounce
/// and stops at the first interaction that ends the path.
pub struct RayBouncer {
    depth: usize,
    max_depth: usize,
    kind: HitKind,
}

impl View for RayBouncer {
    type V = BouncerView;

    closed spec fn view(&self) -> BouncerView {
        BouncerView {
            depth: self.depth as nat,
            max_depth: self.max_depth as nat,
            kind: self.kind,
        }
    }
}

impl RayBouncer {
    /// A fresh camera ray: no bounce taken yet, free to go on.
    pub fn new(max_depth: usize) -> (r: Self)
        ensures
            r@ == (BouncerView { depth: 0, max_depth: max_depth as nat, kind: HitKind::NormalHit }),
    {
        RayBouncer { depth: 0, max_depth, kind: HitKind::NormalHit }
    }

    pub fn depth(&self) -> (r: usize)
        ensures
            r == self@.depth,
    {
        self.depth
    }

    pub fn kind(&self) -> (r: HitKind)
        ensures
            r == self@.kind,
    {
        self.kind
    }

    /// What to do next: finish once the path is over, else intersect.
    pub fn action(&self) -> (r: BounceAction)
        ensures
            r == (if self@.finished() {
                BounceAction::Finish
            } else {
                BounceAction::Intersect
            }),
    {
        if self.depth >= self.max_depth {
            BounceAction::Finish
        } else {
            match self.kind {
                HitKind::LastHit => BounceAction::Finish,
                HitKind::NormalHit => BounceAction::Intersect,
            }
        }
    }

    /// Takes one bounce, given every object's response to the current ray:
    /// `keys` orders their distances, `kinds` says how each would end. Returns
    /// the nearest response, whose ray the tracer carries on with, or `None`
    /// for an empty scene, where the ray escapes unchanged.
    pub fn advance(&mut self, keys: &Vec<u32>, kinds: &Vec<HitKind>) -> (r: Option<usize>)
        requires
            !old(self)@.finished(),
            keys@.len() == kinds@.len(),
        ensures
            match r {
                None => keys@.len() == 0,
                Some(i) => is_nearest(keys@, i as int),
            },
            final(self)@ == old(self)@.after(
                match r {
                    Some(i) => Some(i as int),
                    None => None,
                },
                kinds@,
            ),
    {
        let chosen = nearest_response(keys);
        self.depth = self.depth + 1;
        self.kind = match chosen {
            Some(i) => kinds[i],
            None => HitKind::LastHit,
        };
        chosen
    }
}

/// However the scene answers, a ray's path ends within its bounce budget:
/// every bounce that a state which is not yet finished takes brings it one
/// step closer to the budget, and a state at the budget is finished.
pub proof fn lemma_bounce_budget(v: BouncerView, chosen: Option<int>, kinds: Seq<HitKind>)
    requires
        !v.finished(),
    ensures
        v.after(chosen, kinds).depth <= v.max_depth,
        v.max_depth - v.after(chosen, kinds).depth < v.max_depth - v.depth,
        v.after(chosen, kinds).depth == v.max_depth ==> v.after(chosen, kinds).finished(),
{
}

} // verus!
