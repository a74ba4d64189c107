//! Obstacles: two cactus shapes with kind-fixed dimensions and glyph
//! art, and the ordered set that spawns, advances and prunes them.
//!
//! Obstacles are kept in spawn order, which is also screen order:
//! the oldest surviving obstacle has travelled furthest left and is
//! the one nearest the character.
use vstd::prelude::*;

verus! {

const DEFAULT_DELTA_X: isize = 1;

pub const SHORT_CACTUS_WIDTH: u16 = 3;

pub const SHORT_CACTUS_HEIGHT: u16 = 4;

pub const TALL_CACTUS_WIDTH: u16 = 7;

pub const TALL_CACTUS_HEIGHT: u16 = 5;

/// Position moved left by `delta`, stopping at zero (saturating).
pub open spec fn moved_left(x: u16, delta: int) -> u16 {
    if x >= delta {
        (x - delta) as u16
    } else {
        0u16
    }
}

/// A short cactus: 3 cells wide, 4 cells tall.
#[derive(Debug, Clone, Copy, PartialEq, Eq, Structural)]
pub struct ShortCactus {
    pub x: u16,
    pub width: u16,
    pub height: u16,
}

/// A tall cactus: 7 cells wide, 5 cells tall.
#[derive(Debug, Clone, Copy, PartialEq, Eq, Structural)]
pub struct TallCactus {
    pub x: u16,
    pub width: u16,
    pub height: u16,
}

impl ShortCactus {
    /// Dimensions match the kind, and the obstacle lies fully within
    /// the coordinate range (it spawned fully on screen and has only
    /// moved left since).
    pub open spec fn wf(self) -> bool {
        &&& self.width == SHORT_CACTUS_WIDTH
        &&& self.height == SHORT_CACTUS_HEIGHT
        &&& self.x + self.width <= u16::MAX
    }

    /// A short cactus whose right edge sits at `start_x`.
    pub fn new(start_x: u16) -> (c: Self)
        requires
            start_x >= SHORT_CACTUS_WIDTH,
        ensures
            c == (ShortCactus {
                x: (start_x - SHORT_CACTUS_WIDTH) as u16,
                width: SHORT_CACTUS_WIDTH,
                height: SHORT_CACTUS_HEIGHT,
            }),
            c.wf(),
    {
        ShortCactus {
            x: start_x - SHORT_CACTUS_WIDTH,
            width: SHORT_CACTUS_WIDTH,
            height: SHORT_CACTUS_HEIGHT,
        }
    }

    /// Moves the cactus `delta_x` cells left, saturating at zero.
    pub fn update_x(&mut self, delta_x: isize)
        requires
            delta_x >= 0,
        ensures
            final(self).x == moved_left(old(self).x, delta_x as int),
            final(self).width == old(self).width,
            final(self).height == old(self).height,
    {
        let step: u16 = if delta_x > u16::MAX as isize {
            u16::MAX
        } else {
            delta_x as u16
        };
        self.x = self.x.saturating_sub(step);
    }

    pub fn get_all_attr(&self) -> (attr: (u16, u16, u16, &'static str))
        ensures
            attr.0 == self.x,
            attr.1 == self.width,
            attr.2 == self.height,
            attr.3@ == "#\n# #\n###\n  #\n"@,
    {
        (self.x, self.width, self.height, "#\n# #\n###\n  #\n")
    }
}

impl TallCactus {
    /// Dimensions match the kind, and the obstacle lies fully within
    /// the coordinate range.
    pub open spec fn wf(self) -> bool {
        &&& self.width == TALL_CACTUS_WIDTH
        &&& self.height == TALL_CACTUS_HEIGHT
        &&& self.x + self.width <= u16::MAX
    }

    /// A tall cactus whose right edge sits at `start_x`.
    pub fn new(start_x: u16) -> (c: Self)
        requires
            start_x >= TALL_CACTUS_WIDTH,
        ensures
            c == (TallCactus {
                x: (start_x - TALL_CACTUS_WIDTH) as u16,
                width: TALL_CACTUS_WIDTH,
                height: TALL_CACTUS_HEIGHT,
            }),
            c.wf(),
    {
        TallCactus {
            x: start_x - TALL_CACTUS_WIDTH,
            width: TALL_CACTUS_WIDTH,
            height: TALL_CACTUS_HEIGHT,
        }
    }

    /// Moves the cactus `delta_x` cells left, saturating at zero.
    pub fn update_x(&mut self, delta_x: isize)
        requires
            delta_x >= 0,
        ensures
            final(self).x == moved_left(old(self).x, delta_x as int),
            final(self).width == old(self).width,
            final(self).height == old(self).height,
    {
        let step: u16 = if delta_x > u16::MAX as isize {
            u16::MAX
        } else {
            delta_x as u16
        };
        self.x = self.x.saturating_sub(step);
    }

    pub fn get_all_attr(&self) -> (attr: (u16, u16, u16, &'static str))
        ensures
            attr.0 == self.x,
            attr.1 == self.width,
            attr.2 == self.height,
            attr.3@ == "    #\n#   # #\n# # ###\n### #\n  # #\n"@,
    {
        (self.x, self.width, self.height, "    #\n#   # #\n# # ###\n### #\n  # #\n")
    }
}

/// The closed set of obstacle kinds, dispatched by match.
#[derive(Debug, Clone, Copy, PartialEq, Eq, Structural)]
pub enum CactusType {
    Short(ShortCactus),
    Tall(TallCactus),
}

impl CactusType {
    pub open spec fn spec_x(self) -> u16 {
        match self {
            CactusType::Short(s) => s.x,
            CactusType::Tall(t) => t.x,
        }
    }

    pub open spec fn spec_width(self) -> u16 {
        match self {
            CactusType::Short(s) => s.width,
            CactusType::Tall(t) => t.width,
        }
    }

    pub open spec fn spec_height(self) -> u16 {
        match self {
            CactusType::Short(s) => s.height,
            CactusType::Tall(t) => t.height,
        }
    }

    pub open spec fn wf(self) -> bool {
        match self {
            CactusType::Short(s) => s.wf(),
            CactusType::Tall(t) => t.wf(),
        }
    }

    /// Moves the cactus `delta_x` cells left, saturating at zero; the
    /// kind and dimensions are unchanged.
    pub fn update_x(&mut self, delta: isize)
        requires
            delta >= 0,
        ensures
            *final(self) == spec_advance(*old(self), delta as int),
    {
        match self {
            CactusType::Short(s) => s.update_x(delta),
            CactusType::Tall(t) => t.update_x(delta),
        }
    }

    /// The obstacle's left column.
    pub fn get_x(&self) -> (x: u16)
        ensures
            x == self.spec_x(),
    {
        match self {
            CactusType::Short(s) => s.get_all_attr().0,
            CactusType::Tall(t) => t.get_all_attr().0,
        }
    }

    /// Left column, width, height and glyph art of the obstacle.
    pub fn get_all_attr(&self) -> (attr: (u16, u16, u16, &'static str))
        ensures
            attr.0 == self.spec_x(),
            attr.1 == self.spec_width(),
            attr.2 == self.spec_height(),
            attr.3@ == (match *self {
                CactusType::Short(_) => "#\n# #\n###\n  #\n"@,
                CactusType::Tall(_) => "    #\n#   # #\n# # ###\n### #\n  # #\n"@,
            }),
    {
        match self {
            CactusType::Short(s) => s.get_all_attr(),
            CactusType::Tall(t) => t.get_all_attr(),
        }
    }
}

/// The obstacle after one advance of `delta` cells left (saturating).
pub open spec fn spec_advance(c: CactusType, delta: int) -> CactusType {
    match c {
        CactusType::Short(s) => CactusType::Short(ShortCactus {
            x: moved_left(s.x, delta),
            ..s
        }),
        CactusType::Tall(t) => CactusType::Tall(TallCactus { x: moved_left(t.x, delta), ..t }),
    }
}

/// An obstacle survives pruning while its position is still right of
/// the left edge.
pub open spec fn live_pred() -> spec_fn(CactusType) -> bool {
    |c: CactusType| c.spec_x() > 0
}

/// The obstacle spawned for a random byte: an even byte gives a short
/// cactus, an odd byte a tall one, in either case placed with its
/// right edge at the right edge of the frame.
pub open spec fn spawn_spec(byte: u8, frame_width: u16) -> CactusType {
    if byte % 2 == 0 {
        CactusType::Short(ShortCactus {
            x: (frame_width - SHORT_CACTUS_WIDTH) as u16,
            width: SHORT_CACTUS_WIDTH,
            height: SHORT_CACTUS_HEIGHT,
        })
    } else {
        CactusType::Tall(TallCactus {
            x: (frame_width - TALL_CACTUS_WIDTH) as u16,
            width: TALL_CACTUS_WIDTH,
            height: TALL_CACTUS_HEIGHT,
        })
    }
}

/// Relies on rand::random: draws one byte from the thread-local
/// generator.  Nothing is promised of the value.
#[verifier::external_body]
pub(crate) fn random_byte() -> u8 {
    rand::random::<u8>()
}

/// The obstacle determined by a draw `byte`: even gives short, odd
/// gives tall, spawned at the right edge of a frame `frame_width`
/// cells wide.
pub fn obstacle_from_byte(byte: u8, frame_width: u16) -> (c: CactusType)
    requires
        frame_width >= TALL_CACTUS_WIDTH,
    ensures
        c == spawn_spec(byte, frame_width),
        c.wf(),
{
    if byte % 2 == 0 {
        CactusType::Short(ShortCactus::new(frame_width))
    } else {
        CactusType::Tall(TallCactus::new(frame_width))
    }
}

/// One obstacle of a uniformly random kind, spawned at the right edge
/// of a frame `frame_width` cells wide.
pub fn get_new_obstacle(frame_width: u16) -> (c: CactusType)
    requires
        frame_width >= TALL_CACTUS_WIDTH,
    ensures
        exists|b: u8| c == spawn_spec(b, frame_width),
        c.wf(),
{
    let byte = random_byte();
    let c = obstacle_from_byte(byte, frame_width);
    proof {
        assert(c == spawn_spec(byte, frame_width));
    }
    c
}

/// The ordered set of live obstacles, in spawn order.
pub struct ObstacleVec {
    pub obstacles: Vec<CactusType>,
}

impl View for ObstacleVec {
    type V = Seq<CactusType>;

    open spec fn view(&self) -> Seq<CactusType> {
        self.obstacles@
    }
}

impl ObstacleVec {
    /// Every obstacle held is well formed.
    pub open spec fn wf(self) -> bool {
        forall|i: int| 0 <= i < self@.len() ==> (#[trigger] self@[i]).wf()
    }

    pub fn new() -> (v: ObstacleVec)
        ensures
            v@ == Seq::<CactusType>::empty(),
            v.wf(),
    {
        ObstacleVec { obstacles: Vec::new() }
    }

    pub fn get_obstacles(&self) -> (obs: &Vec<CactusType>)
        ensures
            obs@ == self@,
    {
        &self.obstacles
    }

    /// The obstacle nearest the character: the oldest survivor, or
    /// nothing if the set is empty.
    pub fn nearest(&self) -> (c: Option<CactusType>)
        ensures
            c == (if self@.len() > 0 {
                Option::Some(self@[0])
            } else {
                Option::None::<CactusType>
            }),
    {
        if self.obstacles.len() > 0 {
            Some(self.obstacles[0])
        } else {
            None
        }
    }

    /// Appends one obstacle at the end of the spawn order.
    pub fn push_obstacle(&mut self, c: CactusType)
        ensures
            final(self)@ == old(self)@.push(c),
    {
        self.obstacles.push(c);
    }

    /// Spawns one obstacle of a uniformly random kind at the right
    /// edge of the frame and appends it.
    pub fn add_new_obstacle(&mut self, frame_rect: crate::rect::Rect)
        requires
            frame_rect.width >= TALL_CACTUS_WIDTH,
        ensures
            exists|b: u8|
                final(self)@ == old(self)@.push(#[trigger] spawn_spec(b, frame_rect.width)),
    {
        let new_obstacle = get_new_obstacle(frame_rect.width);
        self.obstacles.push(new_obstacle);
    }

    /// Removes exactly the obstacles whose position has reached zero,
    /// preserving the order of the survivors.
    pub fn remove_obstacle(&mut self)
        ensures
            final(self)@ == old(self)@.filter(live_pred()),
            old(self).wf() ==> final(self).wf(),
    {
        if !self.obstacles.is_empty() {
            let n = self.obstacles.len();
            let mut kept: Vec<CactusType> = Vec::new();
            for i in 0..n
                invariant
                    n == self.obstacles@.len(),
                    self.obstacles@ == old(self)@,
                    kept@ == self.obstacles@.take(i as int).filter(live_pred()),
            {
                let c = self.obstacles[i];
                proof {
                    reveal(Seq::filter);
                    assert(self.obstacles@.take(i + 1).drop_last() =~= self.obstacles@.take(
                        i as int,
                    ));
                    assert(self.obstacles@.take(i + 1).last() == c);
                }
                if c.get_x() > 0 {
                    kept.push(c);
                }
            }
            proof {
                assert(self.obstacles@.take(n as int) =~= self.obstacles@);
            }
            self.obstacles = kept;
            proof {
                if old(self).wf() {
                    lemma_filter_live_wf(old(self)@);
                }
            }
        } else {
            proof {
                reveal(Seq::filter);
                assert(old(self)@.filter(live_pred()) =~= old(self)@);
            }
        }
    }

    /// Moves every obstacle `delta_x` cells left (one cell if no
    /// amount is given), saturating at zero; order, kinds and
    /// dimensions are unchanged.
    pub fn update_obstacles(&mut self, delta_x: Option<isize>)
        requires
            (match delta_x {
                Option::Some(d) => d >= 0,
                Option::None => true,
            }),
        ensures
            final(self)@.len() == old(self)@.len(),
            forall|i: int|
                0 <= i < old(self)@.len() ==> final(self)@[i] == spec_advance(
                    #[trigger] old(self)@[i],
                    (match delta_x {
                        Option::Some(d) => d as int,
                        Option::None => 1int,
                    }),
                ),
            old(self).wf() ==> final(self).wf(),
    {
        let delta: isize = match delta_x {
            Some(d) => d,
            None => DEFAULT_DELTA_X,
        };
        let n = self.obstacles.len();
        let mut moved: Vec<CactusType> = Vec::new();
        for i in 0..n
            invariant
                delta >= 0,
                n == self.obstacles@.len(),
                self.obstacles@ == old(self)@,
                moved@.len() == i,
                forall|j: int|
                    0 <= j < i ==> moved@[j] == spec_advance(
                        #[trigger] self.obstacles@[j],
                        delta as int,
                    ),
        {
            let mut c = self.obstacles[i];
            c.update_x(delta);
            moved.push(c);
        }
        self.obstacles = moved;
        proof {
            if old(self).wf() {
                assert forall|i: int| 0 <= i < self@.len() implies (#[trigger] self@[i]).wf() by {
                    assert(old(self)@[i].wf());
                }
            }
        }
    }
}

/// Every obstacle that survives pruning was in the set before, so a
/// well-formed set stays well formed.
proof fn lemma_filter_live_wf(s: Seq<CactusType>)
    requires
        forall|i: int| 0 <= i < s.len() ==> (#[trigger] s[i]).wf(),
    ensures
        forall|i: int|
            0 <= i < s.filter(live_pred()).len() ==> (#[trigger] s.filter(live_pred())[i]).wf(),
    decreases s.len(),
{
    reveal(Seq::filter);
    if s.len() > 0 {
        assert forall|i: int| 0 <= i < s.drop_last().len() implies (#[trigger] s.drop_last()[
            i]).wf() by {
            assert(s[i].wf());
        }
        lemma_filter_live_wf(s.drop_last());
        let f = s.filter(live_pred());
        let fd = s.drop_last().filter(live_pred());
        assert(s.last().wf());
        assert forall|i: int| 0 <= i < f.len() implies (#[trigger] f[i]).wf() by {
            if live_pred()(s.last()) {
                assert(f == fd.push(s.last()));
                if i < fd.len() {
                    assert(f[i] == fd[i]);
                } else {
                    assert(f[i] == s.last());
                }
            } else {
                assert(f == fd);
            }
        }
    }
}

/// A sequence whose members all satisfy the liveness predicate is left
/// unchanged by filtering.
proof fn lemma_filter_live_all(s: Seq<CactusType>)
    requires
        forall|i: int| 0 <= i < s.len() ==> live_pred()(#[trigger] s[i]),
    ensures
        s.filter(live_pred()) == s,
    decreases s.len(),
{
    reveal(Seq::filter);
    if s.len() > 0 {
        lemma_filter_live_all(s.drop_last());
        assert(s.filter(live_pred()) =~= s);
    } else {
        assert(s.filter(live_pred()) =~= s);
    }
}

/// Law: pruning is idempotent.  Pruning an already pruned obstacle set
/// changes nothing; in particular pruning an empty set gives an empty
/// set.
pub proof fn lemma_prune_idempotent(s: Seq<CactusType>)
    ensures
        s.filter(live_pred()).filter(live_pred()) == s.filter(live_pred()),
        s.len() == 0 ==> s.filter(live_pred()) == Seq::<CactusType>::empty(),
{
    broadcast use vstd::seq_lib::group_filter_ensures;

    lemma_filter_live_all(s.filter(live_pred()));
    if s.len() == 0 {
        reveal(Seq::filter);
        assert(s.filter(live_pred()) =~= Seq::<CactusType>::empty());
    }
}

} // verus!
