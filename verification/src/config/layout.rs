//! Identifiers of the tabs that can be popped out into floating windows.
use vstd::prelude::*;
use vstd::string::StringExecFns;

verus! {

/// Unique identifier for a tab.
#[derive(Debug, Clone, Copy, Hash, PartialEq, Eq, Structural)]
pub enum TabId {
    /// Main tabs
    Block1,
    Block2,
    Block3,
    Macros,
    Inputs,
    Settings,
    /// Block 1 sub-tabs
    Block1Ch1Adjust,
    Block1Ch2MixKey,
    Block1Ch2Adjust,
    Block1Fb1,
    Block1Lfo,
    /// Block 2 sub-tabs
    Block2InputAdjust,
    Block2Fb2,
    Block2Lfo,
    /// Block 3 sub-tabs
    Block3B1Reprocess,
    Block3B2Reprocess,
    Block3Matrix,
    Block3FinalMix,
    Block3Lfo,
}

impl TabId {
    /// Display name of a tab.
    pub open spec fn spec_display_name(self) -> Seq<char> {
        match self {
            TabId::Block1 => "Block 1"@,
            TabId::Block2 => "Block 2"@,
            TabId::Block3 => "Block 3"@,
            TabId::Macros => "Macros"@,
            TabId::Inputs => "Inputs"@,
            TabId::Settings => "Settings"@,
            TabId::Block1Ch1Adjust => "CH1 Adjust"@,
            TabId::Block1Ch2MixKey => "CH2 Mix & Key"@,
            TabId::Block1Ch2Adjust => "CH2 Adjust"@,
            TabId::Block1Fb1 => "FB1 Parameters"@,
            TabId::Block1Lfo => "Block 1 LFO"@,
            TabId::Block2InputAdjust => "Input Adjust"@,
            TabId::Block2Fb2 => "FB2 Parameters"@,
            TabId::Block2Lfo => "Block 2 LFO"@,
            TabId::Block3B1Reprocess => "Block 1 Re-process"@,
            TabId::Block3B2Reprocess => "Block 2 Re-process"@,
            TabId::Block3Matrix => "Matrix Mixer"@,
            TabId::Block3FinalMix => "Final Mix"@,
            TabId::Block3Lfo => "Block 3 LFO"@,
        }
    }

    /// Get display name for the tab.
    pub fn display_name(&self) -> (r: &'static str)
        ensures
            r@ == self.spec_display_name(),
    {
        match self {
            TabId::Block1 => "Block 1",
            TabId::Block2 => "Block 2",
            TabId::Block3 => "Block 3",
            TabId::Macros => "Macros",
            TabId::Inputs => "Inputs",
            TabId::Settings => "Settings",
            TabId::Block1Ch1Adjust => "CH1 Adjust",
            TabId::Block1Ch2MixKey => "CH2 Mix & Key",
            TabId::Block1Ch2Adjust => "CH2 Adjust",
            TabId::Block1Fb1 => "FB1 Parameters",
            TabId::Block1Lfo => "Block 1 LFO",
            TabId::Block2InputAdjust => "Input Adjust",
            TabId::Block2Fb2 => "FB2 Parameters",
            TabId::Block2Lfo => "Block 2 LFO",
            TabId::Block3B1Reprocess => "Block 1 Re-process",
            TabId::Block3B2Reprocess => "Block 2 Re-process",
            TabId::Block3Matrix => "Matrix Mixer",
            TabId::Block3FinalMix => "Final Mix",
            TabId::Block3Lfo => "Block 3 LFO",
        }
    }

    /// Get the window title for a popped-out tab: its display name.
    pub fn window_title(&self) -> (r: String)
        ensures
            r@ == self.spec_display_name(),
    {
        String::from_str(self.display_name())
    }
}

/// Different tabs have different display names (and so different window
/// titles).
pub proof fn law_tab_names_distinct(a: TabId, b: TabId)
    requires
        a != b,
    ensures
        a.spec_display_name() != b.spec_display_name(),
{
    reveal_strlit("Block 1");
    reveal_strlit("Block 2");
    reveal_strlit("Block 3");
    reveal_strlit("Macros");
    reveal_strlit("Inputs");
    reveal_strlit("Settings");
    reveal_strlit("CH1 Adjust");
    reveal_strlit("CH2 Mix & Key");
    reveal_strlit("CH2 Adjust");
    reveal_strlit("FB1 Parameters");
    reveal_strlit("Block 1 LFO");
    reveal_strlit("Input Adjust");
    reveal_strlit("FB2 Parameters");
    reveal_strlit("Block 2 LFO");
    reveal_strlit("Block 1 Re-process");
    reveal_strlit("Block 2 Re-process");
    reveal_strlit("Matrix Mixer");
    reveal_strlit("Final Mix");
    reveal_strlit("Block 3 LFO");
    if a.spec_display_name() == b.spec_display_name() {
        assert(a.spec_display_name().len() == b.spec_display_name().len());
        assert(a.spec_display_name()[0] == b.spec_display_name()[0]);
        assert(a.spec_display_name()[2] == b.spec_display_name()[2]);
        assert(a.spec_display_name()[6] == b.spec_display_name()[6]);
    }
}

/// The tabs popped out into floating windows, in the order they were
/// popped out, each once.
#[derive(Debug)]
pub struct PoppedTabs {
    tabs: Vec<TabId>,
}

impl View for PoppedTabs {
    type V = Seq<TabId>;

    closed spec fn view(&self) -> Seq<TabId> {
        self.tabs@
    }
}

impl PoppedTabs {
    /// No tab appears twice.
    #[verifier::type_invariant]
    closed spec fn each_once(self) -> bool {
        self.tabs@.no_duplicates()
    }

    /// No tab popped out.
    pub fn new() -> (r: Self)
        ensures
            r@ == Seq::<TabId>::empty(),
    {
        PoppedTabs { tabs: Vec::new() }
    }

    /// Number of popped-out tabs.
    pub fn len(&self) -> (r: usize)
        ensures
            r == self@.len(),
    {
        self.tabs.len()
    }

    /// Position of `tab` among the popped-out tabs.
    fn position(&self, tab: TabId) -> (r: Option<usize>)
        ensures
            match r {
                Some(i) => i < self@.len() && self@[i as int] == tab,
                None => !self@.contains(tab),
            },
    {
        let mut i: usize = 0;
        while i < self.tabs.len()
            invariant
                i <= self.tabs@.len(),
                forall|j: int| 0 <= j < i ==> self.tabs@[j] != tab,
            decreases self.tabs@.len() - i,
        {
            if self.tabs[i] == tab {
                return Some(i);
            }
            i += 1;
        }
        None
    }

    /// Whether a tab is popped out.
    pub fn is_popped(&self, tab: TabId) -> (r: bool)
        ensures
            r == self@.contains(tab),
    {
        self.position(tab).is_some()
    }

    /// Pop out a tab. A tab not yet out is added last and its cascade slot,
    /// the number of tabs already out, is returned; a tab already out
    /// changes nothing.
    pub fn pop_tab(&mut self, tab: TabId) -> (r: Option<usize>)
        ensures
            old(self)@.contains(tab) ==> r is None && final(self)@ == old(self)@,
            !old(self)@.contains(tab) ==> r == Some(old(self)@.len() as usize) && final(self)@
                == old(self)@.push(tab),
    {
        proof {
            use_type_invariant(&*self);
        }
        if self.is_popped(tab) {
            return None;
        }
        let slot = self.tabs.len();
        let mut tabs: Vec<TabId> = Vec::new();
        std::mem::swap(&mut tabs, &mut self.tabs);
        tabs.push(tab);
        proof {
            assert forall|a: int, b: int|
                0 <= a < tabs@.len() && 0 <= b < tabs@.len() && a != b implies tabs@[a] != tabs@[b] by {
                if a == slot || b == slot {
                    if a < slot {
                        assert(old(self)@[a] == tabs@[a]);
                    }
                    if b < slot {
                        assert(old(self)@[b] == tabs@[b]);
                    }
                }
            }
        }
        self.tabs = tabs;
        Some(slot)
    }

    /// Dock a tab (close its floating window); a tab not out changes
    /// nothing.
    pub fn dock_tab(&mut self, tab: TabId)
        ensures
            !final(self)@.contains(tab),
            !old(self)@.contains(tab) ==> final(self)@ == old(self)@,
            old(self)@.contains(tab) ==> exists|i: int|
                0 <= i < old(self)@.len() && old(self)@[i] == tab && final(self)@ == old(self)@.remove(i),
    {
        proof {
            use_type_invariant(&*self);
        }
        match self.position(tab) {
            Some(i) => {
                let ghost before = self.tabs@;
                let mut tabs: Vec<TabId> = Vec::new();
                std::mem::swap(&mut tabs, &mut self.tabs);
                tabs.remove(i);
                proof {
                    assert(tabs@ =~= before.remove(i as int));
                    assert forall|a: int, b: int|
                        0 <= a < tabs@.len() && 0 <= b < tabs@.len() && a != b implies tabs@[a]
                        != tabs@[b] by {
                        let a2 = if a < i { a } else { a + 1 };
                        let b2 = if b < i { b } else { b + 1 };
                        assert(tabs@[a] == before[a2]);
                        assert(tabs@[b] == before[b2]);
                    }
                    if tabs@.contains(tab) {
                        let k = choose|k: int| 0 <= k < tabs@.len() && tabs@[k] == tab;
                        let k2 = if k < i { k } else { k + 1 };
                        assert(before[k2] == tab);
                    }
                }
                self.tabs = tabs;
            },
            None => {},
        }
    }

    /// Toggle a tab: dock it when it is out (`None`), pop it out otherwise
    /// (its cascade slot).
    pub fn toggle_popped(&mut self, tab: TabId) -> (r: Option<usize>)
        ensures
            old(self)@.contains(tab) ==> r is None && !final(self)@.contains(tab),
            old(self)@.contains(tab) ==> exists|i: int|
                0 <= i < old(self)@.len() && old(self)@[i] == tab && final(self)@ == old(self)@.remove(i),
            !old(self)@.contains(tab) ==> r == Some(old(self)@.len() as usize) && final(self)@
                == old(self)@.push(tab),
    {
        if self.is_popped(tab) {
            self.dock_tab(tab);
            None
        } else {
            self.pop_tab(tab)
        }
    }
}

impl Default for PoppedTabs {
    fn default() -> (r: Self)
        ensures
            r@ == Seq::<TabId>::empty(),
    {
        Self::new()
    }
}

/// Popping a tab out and docking it again leaves the other tabs out, in
/// their order.
pub proof fn law_pop_then_dock(s: Seq<TabId>, tab: TabId)
    requires
        !s.contains(tab),
    ensures
        s.push(tab).remove(s.len() as int) == s,
        s.push(tab)[s.len() as int] == tab,
{
    assert(s.push(tab).remove(s.len() as int) =~= s);
}

} // verus!
