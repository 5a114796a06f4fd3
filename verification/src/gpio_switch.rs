use vstd::prelude::*;

use crate::text::owned;

verus! {

/// The line level that opens (`true`) or closes a switch: the relays are
/// active low.
pub open spec fn level_for(open: bool) -> u8 {
    if open {
        0
    } else {
        1
    }
}

/// Whether a line level means an open switch.
pub open spec fn is_open_level(level: u8) -> bool {
    level == 0
}

/// The level to drive a line to.
pub fn line_level(open: bool) -> (r: u8)
    ensures
        r == level_for(open),
{
    if open {
        0
    } else {
        1
    }
}

/// Reads a line level as switch state.
pub fn level_is_open(level: u8) -> (r: bool)
    ensures
        r == is_open_level(level),
{
    level == 0
}

/// Reading back the level written to open or close a switch gives the
/// state that was asked for.
pub proof fn law_level_round_trip(open: bool)
    ensures
        is_open_level(level_for(open)) == open,
{
}

/// The switch states for the levels read from all lines, or the first read
/// error.
pub open spec fn open_states_of(levels: Seq<Result<u8, String>>) -> Result<Seq<bool>, String>
    decreases levels.len(),
{
    if levels.len() == 0 {
        Ok(Seq::empty())
    } else {
        match levels[0] {
            Err(e) => Err(e),
            Ok(l) => match open_states_of(levels.drop_first()) {
                Err(e) => Err(e),
                Ok(rest) => Ok(seq![is_open_level(l)] + rest),
            },
        }
    }
}

/// The names of the switch channels, in the order of their indices.
pub struct SwitchChannels {
    names: Vec<String>,
}

impl View for SwitchChannels {
    type V = Seq<Seq<char>>;

    closed spec fn view(&self) -> Seq<Seq<char>> {
        self.names@.map_values(|n: String| n@)
    }
}

impl SwitchChannels {
    /// The channels with the given names.
    pub fn new(names: Vec<String>) -> (r: Self)
        ensures
            r@ == names@.map_values(|n: String| n@),
    {
        SwitchChannels { names }
    }

    /// Number of channels.
    pub fn len(&self) -> (r: usize)
        ensures
            r == self@.len(),
    {
        self.names.len()
    }

    /// The names of all channels.
    pub fn get_names(&self) -> (r: Vec<String>)
        ensures
            r@.map_values(|n: String| n@) == self@,
    {
        let mut r: Vec<String> = Vec::new();
        let mut i: usize = 0;
        while i < self.names.len()
            invariant
                0 <= i <= self.names.len(),
                r.len() == i,
                forall|k: int| 0 <= k < i ==> (#[trigger] r@[k])@ == self.names@[k]@,
            decreases self.names.len() - i,
        {
            r.push(self.names[i].clone());
            i = i + 1;
        }
        assert(r@.map_values(|n: String| n@) =~= self@);
        r
    }

    /// The name of a channel.
    pub fn get_name(&self, channel: usize) -> (r: Result<String, String>)
        ensures
            channel < self@.len() ==> (r matches Ok(n) && n@ == self@[channel as int]),
            channel >= self@.len() ==> (r matches Err(e) && e@ == "Switch index not found"@),
    {
        if channel < self.names.len() {
            Ok(self.names[channel].clone())
        } else {
            Err(owned("Switch index not found"))
        }
    }

    /// The level to drive a channel's line to for the asked state, or the
    /// error for an unknown channel.
    pub fn level_to_set(&self, channel: usize, open: bool) -> (r: Result<u8, String>)
        ensures
            channel < self@.len() ==> r == Ok::<u8, String>(level_for(open)),
            channel >= self@.len() ==> (r matches Err(e) && e@ == "Switch index not found"@),
    {
        if channel < self.names.len() {
            Ok(line_level(open))
        } else {
            Err(owned("Switch index not found"))
        }
    }
}

/// Turns the levels read from all lines into switch states; the first read
/// error is returned instead.
pub fn open_states(levels: Vec<Result<u8, String>>) -> (r: Result<Vec<bool>, String>)
    ensures
        r matches Ok(v) ==> open_states_of(levels@) == Ok::<Seq<bool>, String>(v@),
        r matches Err(e) ==> (open_states_of(levels@) matches Err(e2) && e2@ == e@),
{
    let mut out: Vec<bool> = Vec::new();
    let ghost all = levels@;
    let mut i: usize = 0;
    let n = levels.len();
    while i < n
        invariant
            n == all.len(),
            0 <= i <= n,
            levels@.len() == n,
            levels@ == all,
            out@.len() == i,
            forall|k: int| 0 <= k < i ==> (#[trigger] all[k]) is Ok,
            forall|k: int| 0 <= k < i ==> (all[k] matches Ok(l) && #[trigger] out@[k] == is_open_level(l)),
        decreases n - i,
    {
        match &levels[i] {
            Err(e) => {
                proof {
                    assert(all[i as int] is Err);
                    lemma_open_states_first_error(all, i as int);
                    assert(all[i as int]->Err_0 == *e);
                }
                return Err(e.clone());
            },
            Ok(l) => {
                out.push(level_is_open(*l));
            },
        }
        i = i + 1;
    }
    proof {
        lemma_open_states_all_ok(all, out@);
    }
    Ok(out)
}

proof fn lemma_open_states_first_error(levels: Seq<Result<u8, String>>, i: int)
    requires
        0 <= i < levels.len(),
        levels[i] is Err,
        forall|k: int| 0 <= k < i ==> (#[trigger] levels[k]) is Ok,
    ensures
        open_states_of(levels) == Err::<Seq<bool>, String>(levels[i]->Err_0),
    decreases levels.len(),
{
    if i > 0 {
        assert(levels[0] is Ok);
        let rest = levels.drop_first();
        assert forall|k: int| 0 <= k < i - 1 implies (#[trigger] rest[k]) is Ok by {
            assert(rest[k] == levels[k + 1]);
        }
        lemma_open_states_first_error(rest, i - 1);
    }
}

proof fn lemma_open_states_all_ok(levels: Seq<Result<u8, String>>, out: Seq<bool>)
    requires
        out.len() == levels.len(),
        forall|k: int| 0 <= k < levels.len() ==> (#[trigger] levels[k]) is Ok,
        forall|k: int| 0 <= k < levels.len() ==> (levels[k] matches Ok(l) && #[trigger] out[k] == is_open_level(l)),
    ensures
        open_states_of(levels) == Ok::<Seq<bool>, String>(out),
    decreases levels.len(),
{
    if levels.len() > 0 {
        let rest = levels.drop_first();
        assert forall|k: int| 0 <= k < rest.len() implies (#[trigger] rest[k]) is Ok by {
            assert(rest[k] == levels[k + 1]);
        }
        assert forall|k: int| 0 <= k < rest.len() implies (rest[k] matches Ok(l) && #[trigger] out.drop_first()[k]
            == is_open_level(l)) by {
            assert(rest[k] == levels[k + 1]);
            assert(levels[k + 1] is Ok);
        }
        lemma_open_states_all_ok(rest, out.drop_first());
        assert(levels[0] matches Ok(l) && out[0] == is_open_level(l));
        assert(seq![out[0]] + out.drop_first() =~= out);
    } else {
        assert(out =~= Seq::<bool>::empty());
    }
}

} // verus!
