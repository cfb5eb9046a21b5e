use vstd::prelude::*;

verus! {

/// A physical key identifier: the host platform's numeric code for a key.
pub type KeyCode = u32;

/// The ordered mapping from logical key index to physical key, fixed at construction.
pub struct Keymap {
    keys: Vec<KeyCode>,
}

impl View for Keymap {
    type V = Seq<KeyCode>;

    closed spec fn view(&self) -> Seq<KeyCode> {
        self.keys@
    }
}

/// The entries of `decoded` that hold a value, in their order.
pub open spec fn decoded_values<T>(decoded: Seq<Option<T>>) -> Seq<T>
    decreases decoded.len(),
{
    if decoded.len() == 0 {
        Seq::empty()
    } else {
        let rest = decoded_values(decoded.drop_last());
        match decoded.last() {
            Some(v) => rest.push(v),
            None => rest,
        }
    }
}

/// Keeps, in order, the entries of `decoded` that hold a value.
pub(crate) fn keep_decoded<T: Copy>(decoded: &Vec<Option<T>>) -> (r: Vec<T>)
    ensures
        r@ == decoded_values(decoded@),
{
    let mut out: Vec<T> = Vec::new();
    let mut i: usize = 0;
    while i < decoded.len()
        invariant
            i <= decoded@.len(),
            out@ == decoded_values(decoded@.take(i as int)),
        decreases decoded@.len() - i,
    {
        assert(decoded@.take(i + 1).drop_last() =~= decoded@.take(i as int));
        match decoded[i] {
            Some(v) => out.push(v),
            None => {},
        }
        i = i + 1;
    }
    assert(decoded@.take(i as int) =~= decoded@);
    out
}

impl Keymap {
    /// A keymap whose logical key `i` is the physical key `array[i]`.
    pub fn new(array: &[KeyCode]) -> (r: Keymap)
        ensures
            r@ == array@,
    {
        let mut keys: Vec<KeyCode> = Vec::new();
        let mut i: usize = 0;
        while i < array.len()
            invariant
                i <= array@.len(),
                keys@ == array@.take(i as int),
            decreases array@.len() - i,
        {
            keys.push(array[i]);
            i = i + 1;
            assert(keys@ =~= array@.take(i as int));
        }
        assert(array@.take(i as int) =~= array@);
        Keymap { keys }
    }

    /// A keymap built from key codes that a host decoded one by one; the
    /// entries that did not decode are left out.
    pub fn from_js(array: Vec<Option<KeyCode>>) -> (r: Keymap)
        ensures
            r@ == decoded_values(array@),
    {
        Keymap { keys: keep_decoded(&array) }
    }

    /// The physical keys, in logical order.
    pub fn get_keys(&self) -> (r: Vec<KeyCode>)
        ensures
            r@ == self@,
    {
        self.keys.clone()
    }

    /// The number of logical keys.
    pub fn length(&self) -> (r: usize)
        ensures
            r == self@.len(),
    {
        self.keys.len()
    }

    /// The physical key of logical key `index`.
    pub fn at(&self, index: usize) -> (r: KeyCode)
        requires
            index < self@.len(),
        ensures
            r == self@[index as int],
    {
        self.keys[index]
    }
}

/// The physical keys that a host has forced down, whatever physical polling says.
pub struct KeyOverrideSet {
    keys: Vec<KeyCode>,
}

impl View for KeyOverrideSet {
    type V = Set<KeyCode>;

    closed spec fn view(&self) -> Set<KeyCode> {
        self.keys@.to_set()
    }
}

impl KeyOverrideSet {
    /// Each key is held at most once.
    pub closed spec fn wf(&self) -> bool {
        self.keys@.no_duplicates()
    }

    /// No key forced down.
    pub fn new() -> (r: KeyOverrideSet)
        ensures
            r.wf(),
            r@ == Set::<KeyCode>::empty(),
    {
        let r = KeyOverrideSet { keys: Vec::new() };
        assert(r.keys@.to_set() =~= Set::<KeyCode>::empty());
        r
    }

    fn position(&self, key: KeyCode) -> (r: Option<usize>)
        ensures
            match r {
                Some(i) => i < self.keys@.len() && self.keys@[i as int] == key,
                None => !self.keys@.contains(key),
            },
    {
        let mut i: usize = 0;
        while i < self.keys.len()
            invariant
                i <= self.keys@.len(),
                forall|j: int| 0 <= j < i ==> self.keys@[j] != key,
            decreases self.keys@.len() - i,
        {
            if self.keys[i] == key {
                return Some(i);
            }
            i = i + 1;
        }
        None
    }

    /// Whether `key` is forced down.
    pub fn contains(&self, key: KeyCode) -> (r: bool)
        ensures
            r == self@.contains(key),
    {
        self.position(key).is_some()
    }
}

/// Forces `key` down until it is released.
pub fn press_key(overrides: &mut KeyOverrideSet, key: KeyCode)
    requires
        old(overrides).wf(),
    ensures
        final(overrides).wf(),
        final(overrides)@ == old(overrides)@.insert(key),
{
    if overrides.position(key).is_none() {
        overrides.keys.push(key);
        proof {
            let s = old(overrides).keys@;
            assert(overrides.keys@ =~= s.push(key));
            assert forall|x: KeyCode| s.push(key).contains(x) <==> (s.contains(x) || x == key) by {
                if s.push(key).contains(x) {
                    let j = s.push(key).index_of(x);
                    if j < s.len() {
                        assert(s[j] == x);
                    }
                }
                if s.contains(x) {
                    let j = s.index_of(x);
                    assert(s.push(key)[j] == x);
                }
                assert(s.push(key)[s.len() as int] == key);
            };
            assert(overrides.keys@.to_set() =~= s.to_set().insert(key));
        }
    } else {
        assert(overrides.keys@.to_set() =~= old(overrides)@.insert(key));
    }
}

/// Lifts the forced press of `key`, if there is one.
pub fn release_key(overrides: &mut KeyOverrideSet, key: KeyCode)
    requires
        old(overrides).wf(),
    ensures
        final(overrides).wf(),
        final(overrides)@ == old(overrides)@.remove(key),
{
    match overrides.position(key) {
        Some(i) => {
            let ghost s = overrides.keys@;
            overrides.keys.swap_remove(i);
            proof {
                let t = overrides.keys@;
                assert forall|j: int, k: int| 0 <= j < t.len() && 0 <= k < t.len() && j != k implies t[j] != t[k] by {
                    if j == i {
                        assert(t[j] == s[s.len() - 1]);
                    }
                    if k == i {
                        assert(t[k] == s[s.len() - 1]);
                    }
                };
                assert forall|x: KeyCode| t.contains(x) <==> s.to_set().remove(key).contains(x) by {
                    if t.contains(x) {
                        let j = t.index_of(x);
                        if j == i {
                            assert(s[s.len() - 1] == x);
                        } else {
                            assert(s[j] == x);
                        }
                    }
                    if x != key && s.contains(x) {
                        let j = s.index_of(x);
                        if j == s.len() - 1 {
                            if i < t.len() {
                                assert(t[i as int] == x);
                            } else {
                                assert(j == i);
                            }
                        } else {
                            assert(t[j] == x);
                        }
                    }
                };
                assert(t.to_set() =~= s.to_set().remove(key));
            }
        },
        None => {
            assert(overrides.keys@.to_set() =~= old(overrides)@.remove(key));
        },
    }
}

} // verus!
