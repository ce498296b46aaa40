use vstd::prelude::*;

verus! {

/// The slots of the debug overlay, top to bottom.
#[derive(Clone, Copy, Debug, PartialEq, Eq, Structural)]
pub enum DebugInfo {
    DebugModeNotice,
    Fps,
    Player,
    Entities,
    Step,
    PapaTicker,
    MousePosition,
    AimPosition,
    Temp,
    Moving,
}

/// Number of `DebugInfo` slots.
pub const DEBUG_SLOTS: usize = 10;

impl DebugInfo {
    pub open spec fn index_spec(self) -> nat {
        match self {
            DebugInfo::DebugModeNotice => 0,
            DebugInfo::Fps => 1,
            DebugInfo::Player => 2,
            DebugInfo::Entities => 3,
            DebugInfo::Step => 4,
            DebugInfo::PapaTicker => 5,
            DebugInfo::MousePosition => 6,
            DebugInfo::AimPosition => 7,
            DebugInfo::Temp => 8,
            DebugInfo::Moving => 9,
        }
    }

    pub open spec fn from_index_spec(i: nat) -> DebugInfo {
        if i == 0 {
            DebugInfo::DebugModeNotice
        } else if i == 1 {
            DebugInfo::Fps
        } else if i == 2 {
            DebugInfo::Player
        } else if i == 3 {
            DebugInfo::Entities
        } else if i == 4 {
            DebugInfo::Step
        } else if i == 5 {
            DebugInfo::PapaTicker
        } else if i == 6 {
            DebugInfo::MousePosition
        } else if i == 7 {
            DebugInfo::AimPosition
        } else if i == 8 {
            DebugInfo::Temp
        } else {
            DebugInfo::Moving
        }
    }

    /// The slot's position in the overlay.
    pub fn index(self) -> (r: usize)
        ensures
            r == self.index_spec(),
            r < DEBUG_SLOTS,
            DebugInfo::from_index_spec(r as nat) == self,
    {
        match self {
            DebugInfo::DebugModeNotice => 0,
            DebugInfo::Fps => 1,
            DebugInfo::Player => 2,
            DebugInfo::Entities => 3,
            DebugInfo::Step => 4,
            DebugInfo::PapaTicker => 5,
            DebugInfo::MousePosition => 6,
            DebugInfo::AimPosition => 7,
            DebugInfo::Temp => 8,
            DebugInfo::Moving => 9,
        }
    }

    /// The slot at position `i` of the overlay.
    pub fn from_index(i: usize) -> (r: DebugInfo)
        requires
            i < DEBUG_SLOTS,
        ensures
            r == DebugInfo::from_index_spec(i as nat),
            r.index_spec() == i,
    {
        if i == 0 {
            DebugInfo::DebugModeNotice
        } else if i == 1 {
            DebugInfo::Fps
        } else if i == 2 {
            DebugInfo::Player
        } else if i == 3 {
            DebugInfo::Entities
        } else if i == 4 {
            DebugInfo::Step
        } else if i == 5 {
            DebugInfo::PapaTicker
        } else if i == 6 {
            DebugInfo::MousePosition
        } else if i == 7 {
            DebugInfo::AimPosition
        } else if i == 8 {
            DebugInfo::Temp
        } else {
            DebugInfo::Moving
        }
    }
}

/// Whether a text holds nothing but white space.
pub uninterp spec fn blank(s: Seq<char>) -> bool;

/// Relies on `str::trim`: it strips leading and trailing white space, so
/// the result is empty exactly when the text is blank; an empty text is
/// blank.
#[verifier::external_body]
fn is_blank(s: &str) -> (r: bool)
    ensures
        r == blank(s@),
        s@.len() == 0 ==> r,
{
    s.trim().is_empty()
}

/// The slots among the first `n` whose text is not blank, in order.
pub open spec fn visible_upto(lines: Seq<Seq<char>>, n: nat) -> Seq<DebugInfo>
    decreases n,
{
    if n == 0 {
        Seq::empty()
    } else {
        let rest = visible_upto(lines, (n - 1) as nat);
        if blank(lines[n - 1]) {
            rest
        } else {
            rest.push(DebugInfo::from_index_spec((n - 1) as nat))
        }
    }
}

/// One line of text per `DebugInfo` slot, each possibly empty.
pub struct DebugTable {
    lines: Vec<String>,
}

impl DebugTable {
    pub closed spec fn view(&self) -> Seq<Seq<char>> {
        self.lines@.map_values(|s: String| s@)
    }

    pub open spec fn wf(&self) -> bool {
        self@.len() == DEBUG_SLOTS
    }

    /// A table with every line empty.
    pub fn new() -> (r: DebugTable)
        ensures
            r.wf(),
            forall|i: int| 0 <= i < DEBUG_SLOTS ==> (#[trigger] r@[i]).len() == 0,
    {
        let mut lines: Vec<String> = Vec::new();
        let mut i: usize = 0;
        while i < DEBUG_SLOTS
            invariant
                i <= DEBUG_SLOTS,
                lines@.len() == i,
                forall|j: int| 0 <= j < i ==> (#[trigger] lines@[j])@.len() == 0,
            decreases DEBUG_SLOTS - i,
        {
            lines.push(String::new());
            i = i + 1;
        }
        DebugTable { lines }
    }

    /// Replaces the text of slot `info`.
    pub fn set(&mut self, info: DebugInfo, text: String)
        requires
            old(self).wf(),
        ensures
            final(self).wf(),
            final(self)@ == old(self)@.update(info.index_spec() as int, text@),
    {
        let i = info.index();
        self.lines.set(i, text);
        assert(self@ =~= old(self)@.update(info.index_spec() as int, text@));
    }

    /// The text of slot `info`.
    pub fn get(&self, info: DebugInfo) -> (r: &str)
        requires
            self.wf(),
        ensures
            r@ == self@[info.index_spec() as int],
    {
        self.lines[info.index()].as_str()
    }

    /// The slots to draw, top to bottom: those whose text is not blank.
    pub fn visible(&self) -> (r: Vec<DebugInfo>)
        requires
            self.wf(),
        ensures
            r@ == visible_upto(self@, DEBUG_SLOTS as nat),
    {
        let mut r: Vec<DebugInfo> = Vec::new();
        let mut i: usize = 0;
        while i < DEBUG_SLOTS
            invariant
                i <= DEBUG_SLOTS,
                self.wf(),
                r@ == visible_upto(self@, i as nat),
            decreases DEBUG_SLOTS - i,
        {
            let b = is_blank(self.lines[i].as_str());
            assert(self.lines@[i as int]@ == self@[i as int]);
            if !b {
                r.push(DebugInfo::from_index(i));
            }
            i = i + 1;
        }
        r
    }
}

} // verus!
