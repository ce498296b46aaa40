use vstd::prelude::*;

verus! {

/// The independent tags an entity may carry.
#[derive(Clone, Copy, Debug, PartialEq, Eq, Structural)]
pub enum EntityFlags {
    Player,
    Enemy,
    Bullet,
    Smart,
    DespawnOffScreen,
}

impl EntityFlags {
    pub open spec fn mask_spec(self) -> u8 {
        match self {
            EntityFlags::Player => 1,
            EntityFlags::Enemy => 2,
            EntityFlags::Bullet => 4,
            EntityFlags::Smart => 8,
            EntityFlags::DespawnOffScreen => 16,
        }
    }

    /// The bit that stands for this tag in a `FlagSet`.
    pub fn mask(self) -> (r: u8)
        ensures
            r == self.mask_spec(),
    {
        match self {
            EntityFlags::Player => 1,
            EntityFlags::Enemy => 2,
            EntityFlags::Bullet => 4,
            EntityFlags::Smart => 8,
            EntityFlags::DespawnOffScreen => 16,
        }
    }
}

/// A set of `EntityFlags`, one bit per tag.
#[derive(Clone, Copy, Debug, PartialEq, Eq, Structural)]
pub struct FlagSet {
    pub bits: u8,
}

impl FlagSet {
    pub open spec fn has(self, f: EntityFlags) -> bool {
        self.bits & f.mask_spec() != 0
    }

    /// The set of tags, as a mathematical set.
    pub open spec fn view(self) -> Set<EntityFlags> {
        Set::new(|f: EntityFlags| self.has(f))
    }

    pub fn empty() -> (r: FlagSet)
        ensures
            forall|f: EntityFlags| !r.has(f),
            r.bits == 0,
    {
        let r = FlagSet { bits: 0 };
        assert forall|f: EntityFlags| !r.has(f) by {
            let m = f.mask_spec();
            assert(0u8 & m == 0) by (bit_vector);
        }
        r
    }

    /// This set with `f` added.
    pub fn with(self, f: EntityFlags) -> (r: FlagSet)
        ensures
            forall|g: EntityFlags| r.has(g) == (self.has(g) || g == f),
            r.bits == self.bits | f.mask_spec(),
    {
        let m = f.mask();
        let r = FlagSet { bits: self.bits | m };
        assert forall|g: EntityFlags| r.has(g) == (self.has(g) || g == f) by {
            let b = self.bits;
            let n = g.mask_spec();
            if g == f {
                assert((b | m) & m != 0) by (bit_vector)
                    requires m == 1u8 || m == 2u8 || m == 4u8 || m == 8u8 || m == 16u8;
            } else {
                assert((b | m) & n == b & n) by (bit_vector)
                    requires
                        m == 1u8 || m == 2u8 || m == 4u8 || m == 8u8 || m == 16u8,
                        n == 1u8 || n == 2u8 || n == 4u8 || n == 8u8 || n == 16u8,
                        m != n;
            }
        }
        r
    }

    pub fn contains(self, f: EntityFlags) -> (r: bool)
        ensures
            r == self.has(f),
    {
        self.bits & f.mask() != 0
    }

    /// The tags a bullet fired by the player carries.
    pub fn player_bullet() -> (r: FlagSet)
        ensures
            r@ == set![EntityFlags::Player, EntityFlags::Bullet, EntityFlags::DespawnOffScreen],
            r.bits == 21,
    {
        let a = FlagSet::empty();
        let b = a.with(EntityFlags::Player);
        let c = b.with(EntityFlags::Bullet);
        let r = c.with(EntityFlags::DespawnOffScreen);
        assert(r@ =~= set![EntityFlags::Player, EntityFlags::Bullet, EntityFlags::DespawnOffScreen]);
        let ghost (x0, x1, x2, x3) = (a.bits, b.bits, c.bits, r.bits);
        assert(x3 == 21u8) by (bit_vector)
            requires x0 == 0u8, x1 == x0 | 1u8, x2 == x1 | 4u8, x3 == x2 | 16u8;
        r
    }

    /// The tags of the player's own ship.
    pub fn player() -> (r: FlagSet)
        ensures
            r@ == set![EntityFlags::Player],
    {
        let r = FlagSet::empty().with(EntityFlags::Player);
        assert(r@ =~= set![EntityFlags::Player]);
        r
    }
}

} // verus!
