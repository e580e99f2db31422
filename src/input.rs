//! Client-side input collection: digital button states accumulated over a
//! sending window, and the per-tick sample built from them.
use vstd::prelude::*;

verus! {

/// How a digital input changed since the last sample.
#[derive(Clone, Copy, Debug, PartialEq, Eq, Structural)]
pub enum DigitalInput {
    NotPressed,
    StartPress,
    ContinuePress,
    ReleasePress,
}

/// Key codes of the keys that a sample reads.
pub const KEY_W: u32 = 87;
pub const KEY_A: u32 = 65;
pub const KEY_S: u32 = 83;
pub const KEY_D: u32 = 68;
pub const KEY_SPACE: u32 = 32;
pub const KEY_CONTROL_LEFT: u32 = 17;

/// Significance of a state when several are seen in one window: the edges
/// (a press starting or ending) outrank a held key, which outranks nothing.
pub open spec fn significance(d: DigitalInput) -> nat {
    match d {
        DigitalInput::NotPressed => 0,
        DigitalInput::ContinuePress => 1,
        DigitalInput::StartPress => 2,
        DigitalInput::ReleasePress => 3,
    }
}

/// The state kept when `incoming` is seen after `current`: the more
/// significant one, the earlier one on a tie.
pub open spec fn dominant(current: DigitalInput, incoming: DigitalInput) -> DigitalInput {
    if significance(current) < significance(incoming) {
        incoming
    } else {
        current
    }
}

impl DigitalInput {
    /// The rank of this state.
    pub fn significance(&self) -> (r: u8)
        ensures
            r as nat == significance(*self),
    {
        match self {
            DigitalInput::NotPressed => 0,
            DigitalInput::ContinuePress => 1,
            DigitalInput::StartPress => 2,
            DigitalInput::ReleasePress => 3,
        }
    }

    /// Whether the key is down at the end of the window.
    pub fn is_pressed(&self) -> (r: bool)
        ensures
            r == (*self == DigitalInput::StartPress || *self == DigitalInput::ContinuePress),
    {
        match self {
            DigitalInput::StartPress | DigitalInput::ContinuePress => true,
            _ => false,
        }
    }
}

/// The keyboard states seen since the last sample, one per key.
pub struct KeyboardInputAcc {
    keys: Vec<(u32, DigitalInput)>,
    model: Ghost<Map<u32, DigitalInput>>,
}

impl View for KeyboardInputAcc {
    type V = Map<u32, DigitalInput>;

    closed spec fn view(&self) -> Map<u32, DigitalInput> {
        self.model@
    }
}

/// A per-tick keyboard sample: the two movement axes, each -1, 0 or 1, and
/// the crouch and jump buttons.
#[derive(Clone, Copy, Debug, PartialEq, Eq, Structural)]
pub struct KeyboardSample {
    pub strafe: i8,
    pub walk: i8,
    pub crouch: DigitalInput,
    pub jump: DigitalInput,
}

/// The state of `key` in a window: `NotPressed` when nothing was seen.
pub open spec fn state_of(m: Map<u32, DigitalInput>, key: u32) -> DigitalInput {
    if m.contains_key(key) {
        m[key]
    } else {
        DigitalInput::NotPressed
    }
}

/// Whether a state counts as held down.
pub open spec fn pressed(d: DigitalInput) -> bool {
    d == DigitalInput::StartPress || d == DigitalInput::ContinuePress
}

/// An axis from its two keys: +1 for the positive key alone, -1 for the
/// negative key alone, 0 for neither or both.
pub open spec fn axis(negative: bool, positive: bool) -> i8 {
    if positive && !negative {
        1
    } else if negative && !positive {
        -1i8
    } else {
        0
    }
}

/// The sample that a window yields.
pub open spec fn sample_of(m: Map<u32, DigitalInput>) -> KeyboardSample {
    KeyboardSample {
        strafe: axis(pressed(state_of(m, KEY_A)), pressed(state_of(m, KEY_D))),
        walk: axis(pressed(state_of(m, KEY_S)), pressed(state_of(m, KEY_W))),
        crouch: state_of(m, KEY_CONTROL_LEFT),
        jump: state_of(m, KEY_SPACE),
    }
}

impl KeyboardInputAcc {
    pub closed spec fn wf(&self) -> bool {
        &&& forall|i: int, j: int|
            #![trigger self.keys@[i].0, self.keys@[j].0]
            0 <= i < self.keys@.len() && 0 <= j < self.keys@.len() && i != j ==> self.keys@[i].0
                != self.keys@[j].0
        &&& forall|i: int|
            #![trigger self.keys@[i]]
            0 <= i < self.keys@.len() ==> self.model@.contains_key(self.keys@[i].0)
                && self.model@[self.keys@[i].0] == self.keys@[i].1
        &&& forall|k: u32|
            #[trigger] self.model@.contains_key(k) ==> exists|i: int|
                0 <= i < self.keys@.len() && #[trigger] self.keys@[i].0 == k
    }

    /// An empty window.
    pub fn new() -> (r: KeyboardInputAcc)
        ensures
            r.wf(),
            r@ == Map::<u32, DigitalInput>::empty(),
    {
        KeyboardInputAcc { keys: Vec::new(), model: Ghost(Map::empty()) }
    }

    fn find(&self, key: u32) -> (r: Option<usize>)
        requires
            self.wf(),
        ensures
            match r {
                Some(i) => i < self.keys@.len() && self.keys@[i as int].0 == key,
                None => !self@.contains_key(key),
            },
    {
        let mut i: usize = 0;
        while i < self.keys.len()
            invariant
                self.wf(),
                i <= self.keys@.len(),
                forall|k: int| 0 <= k < i ==> #[trigger] self.keys@[k].0 != key,
            decreases self.keys@.len() - i,
        {
            if self.keys[i].0 == key {
                return Some(i);
            }
            i = i + 1;
        }
        None
    }

    /// Records a state seen for `key`, keeping the more significant of it and
    /// what was already recorded.
    pub fn record(&mut self, key: u32, input: DigitalInput)
        requires
            old(self).wf(),
        ensures
            final(self).wf(),
            final(self)@ == old(self)@.insert(
                key,
                if old(self)@.contains_key(key) {
                    dominant(old(self)@[key], input)
                } else {
                    input
                },
            ),
    {
        let ghost old_keys = self.keys@;
        let ghost m = self.model@;
        match self.find(key) {
            None => {
                self.keys.push((key, input));
                self.model = Ghost(m.insert(key, input));
                proof {
                    let n = old_keys.len() as int;
                    assert(self.keys@[n].0 == key);
                    assert forall|i: int|
                        #![trigger self.keys@[i]]
                        0 <= i < self.keys@.len() implies self.model@.contains_key(self.keys@[i].0)
                            && self.model@[self.keys@[i].0] == self.keys@[i].1 by {
                        if i < n {
                            assert(self.keys@[i] == old_keys[i]);
                            assert(m.contains_key(old_keys[i].0));
                        }
                    }
                    assert forall|k: u32| #[trigger] self.model@.contains_key(k) implies exists|i: int|
                        0 <= i < self.keys@.len() && #[trigger] self.keys@[i].0 == k by {
                        if k != key {
                            let i = choose|i: int| 0 <= i < old_keys.len() && #[trigger] old_keys[i].0 == k;
                            assert(self.keys@[i] == old_keys[i]);
                        }
                    }
                }
            },
            Some(i) => {
                let current = self.keys[i].1;
                if current.significance() < input.significance() {
                    self.keys[i] = (key, input);
                }
                self.model = Ghost(m.insert(key, dominant(current, input)));
                proof {
                    assert forall|j: int|
                        #![trigger self.keys@[j]]
                        0 <= j < self.keys@.len() implies self.model@.contains_key(self.keys@[j].0)
                            && self.model@[self.keys@[j].0] == self.keys@[j].1 by {
                        if j != i {
                            assert(self.keys@[j] == old_keys[j]);
                            assert(old_keys[j].0 != old_keys[i as int].0);
                        }
                    }
                    assert forall|k: u32| #[trigger] self.model@.contains_key(k) implies exists|j: int|
                        0 <= j < self.keys@.len() && #[trigger] self.keys@[j].0 == k by {
                        let j = choose|j: int| 0 <= j < old_keys.len() && #[trigger] old_keys[j].0 == k;
                        assert(self.keys@[j].0 == old_keys[j].0);
                    }
                    assert forall|a: int, b: int|
                        #![trigger self.keys@[a].0, self.keys@[b].0]
                        0 <= a < self.keys@.len() && 0 <= b < self.keys@.len() && a != b
                            implies self.keys@[a].0 != self.keys@[b].0 by {
                        assert(self.keys@[a].0 == old_keys[a].0);
                        assert(self.keys@[b].0 == old_keys[b].0);
                    }
                }
            },
        }
    }

    /// The state of `key` in this window.
    pub fn get(&self, key: u32) -> (r: DigitalInput)
        requires
            self.wf(),
        ensures
            r == state_of(self@, key),
    {
        match self.find(key) {
            Some(i) => self.keys[i].1,
            None => DigitalInput::NotPressed,
        }
    }

    /// Starts a new window.
    pub fn clear(&mut self)
        ensures
            final(self).wf(),
            final(self)@ == Map::<u32, DigitalInput>::empty(),
    {
        self.keys.clear();
        self.model = Ghost(Map::empty());
    }

    /// The sample this window yields.
    pub fn sample(&self) -> (r: KeyboardSample)
        requires
            self.wf(),
        ensures
            r == sample_of(self@),
    {
        let strafe = axis_of(self.get(KEY_A).is_pressed(), self.get(KEY_D).is_pressed());
        let walk = axis_of(self.get(KEY_S).is_pressed(), self.get(KEY_W).is_pressed());
        KeyboardSample {
            strafe,
            walk,
            crouch: self.get(KEY_CONTROL_LEFT),
            jump: self.get(KEY_SPACE),
        }
    }

    /// Takes the window's sample and starts a new window.
    pub fn send_input(&mut self) -> (r: KeyboardSample)
        requires
            old(self).wf(),
        ensures
            r == sample_of(old(self)@),
            final(self).wf(),
            final(self)@ == Map::<u32, DigitalInput>::empty(),
    {
        let r = self.sample();
        self.clear();
        r
    }
}

/// An axis from its two keys.
pub fn axis_of(negative: bool, positive: bool) -> (r: i8)
    ensures
        r == axis(negative, positive),
{
    let mut value: i8 = 0;
    if negative {
        value = value - 1;
    }
    if positive {
        value = value + 1;
    }
    value
}

/// Recording the same key several times in a window keeps the most
/// significant state seen, whatever the order: an edge is never lost to a
/// held key.
pub proof fn lemma_record_order_irrelevant(current: DigitalInput, a: DigitalInput, b: DigitalInput)
    ensures
        significance(dominant(dominant(current, a), b)) == significance(dominant(dominant(current, b), a)),
        significance(dominant(current, a)) >= significance(a),
        significance(dominant(current, a)) >= significance(current),
{
}

} // verus!
