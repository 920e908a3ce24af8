//! The edge-triggered state machine that turns decoded reports into
//! press, release and twist events.

use vstd::prelude::*;

use crate::error::ProtocolError;
use crate::input::{decodes_to, Input, BUTTON_COUNT, ENCODER_COUNT};

verus! {

/// One event for the consumer of the device's input.
#[derive(Clone, Copy, Debug, PartialEq, Eq, Structural)]
pub enum InputEvent {
    ButtonPressed(u8),
    ButtonReleased(u8),
    EncoderPressed(u8),
    EncoderReleased(u8),
    EncoderTwisted(u8, i8),
    /// The device went away; no event follows this one.
    Disconnected,
}

/// What an `InputState` stands for: which keys and encoders are held, and
/// the running position of each encoder.
pub struct InputModel {
    pub buttons: Seq<bool>,
    pub encoders: Seq<bool>,
    pub positions: Seq<int>,
}

impl InputModel {
    pub open spec fn wf(self) -> bool {
        &&& self.buttons.len() == BUTTON_COUNT
        &&& self.encoders.len() == ENCODER_COUNT
        &&& self.positions.len() == ENCODER_COUNT
        &&& forall|i: int|
            0 <= i < ENCODER_COUNT ==> i64::MIN <= #[trigger] self.positions[i] <= i64::MAX
    }
}

/// The event for one key or encoder whose held state goes from `was` to
/// `now`: a press, a release, or nothing when the state is unchanged.
pub open spec fn edge(was: bool, now: bool, i: int, encoder: bool) -> Seq<InputEvent> {
    if now && !was {
        seq![
            if encoder {
                InputEvent::EncoderPressed(i as u8)
            } else {
                InputEvent::ButtonPressed(i as u8)
            },
        ]
    } else if !now && was {
        seq![
            if encoder {
                InputEvent::EncoderReleased(i as u8)
            } else {
                InputEvent::ButtonReleased(i as u8)
            },
        ]
    } else {
        seq![]
    }
}

/// The events of the first `n` indices, in ascending index order.
pub open spec fn edges(old: Seq<bool>, new: Seq<bool>, n: nat, encoder: bool) -> Seq<InputEvent>
    decreases n,
{
    if n == 0 {
        seq![]
    } else {
        edges(old, new, (n - 1) as nat, encoder) + edge(
            old[n - 1],
            new[n - 1],
            n - 1,
            encoder,
        )
    }
}

/// One twist event for every encoder among the first `n` that turned.
pub open spec fn twists(d: Seq<i8>, n: nat) -> Seq<InputEvent>
    decreases n,
{
    if n == 0 {
        seq![]
    } else {
        twists(d, (n - 1) as nat) + if d[n - 1] != 0 {
            seq![InputEvent::EncoderTwisted((n - 1) as u8, d[n - 1])]
        } else {
            seq![]
        }
    }
}

/// Adds a delta to a running position, held at the bounds of `i64`.
pub open spec fn accumulate(p: int, d: int) -> int {
    if p + d > i64::MAX {
        i64::MAX as int
    } else if p + d < i64::MIN {
        i64::MIN as int
    } else {
        p + d
    }
}

/// The state after one decoded report, and the events that it emits.
pub open spec fn step(m: InputModel, input: Input) -> (InputModel, Seq<InputEvent>) {
    match input {
        Input::Buttons(a) => (
            InputModel { buttons: a@, ..m },
            edges(m.buttons, a@, BUTTON_COUNT as nat, false),
        ),
        Input::EncoderPress(a) => (
            InputModel { encoders: a@, ..m },
            edges(m.encoders, a@, ENCODER_COUNT as nat, true),
        ),
        Input::EncoderTwist(d) => (
            InputModel {
                positions: Seq::new(
                    ENCODER_COUNT as nat,
                    |i: int| accumulate(m.positions[i], d[i] as int),
                ),
                ..m
            },
            twists(d@, ENCODER_COUNT as nat),
        ),
        _ => (m, seq![]),
    }
}

/// Nothing held, every encoder at position zero.
pub open spec fn initial_model() -> InputModel {
    InputModel {
        buttons: Seq::new(BUTTON_COUNT as nat, |_i: int| false),
        encoders: Seq::new(ENCODER_COUNT as nat, |_i: int| false),
        positions: Seq::new(ENCODER_COUNT as nat, |_i: int| 0int),
    }
}

/// `r` and `new` are what processing the raw report `report` from state
/// `old` gives: the decoded input applied, or the decoder's error with the
/// state left as it was.
pub open spec fn processed(
    old: InputModel,
    report: Seq<u8>,
    new: InputModel,
    r: Result<Vec<InputEvent>, ProtocolError>,
) -> bool {
    &&& forall|input: Input| #[trigger]
        decodes_to(report, Ok::<Input, ProtocolError>(input)) ==> (r matches Ok(events) && new
            == step(old, input).0 && events@ == step(old, input).1)
    &&& forall|e: ProtocolError| #[trigger]
        decodes_to(report, Err::<Input, ProtocolError>(e)) ==> r == Err::<
            Vec<InputEvent>,
            ProtocolError,
        >(e) && new == old
}

/// The held keys and encoders, and the encoder positions, as last reported.
pub struct InputState {
    buttons: [bool; 8],
    encoders: [bool; 4],
    positions: [i64; 4],
}

impl View for InputState {
    type V = InputModel;

    closed spec fn view(&self) -> InputModel {
        InputModel {
            buttons: self.buttons@,
            encoders: self.encoders@,
            positions: Seq::new(ENCODER_COUNT as nat, |i: int| self.positions@[i] as int),
        }
    }
}

fn accumulate_exec(p: i64, d: i8) -> (r: i64)
    ensures
        r as int == accumulate(p as int, d as int),
{
    match p.checked_add(d as i64) {
        Some(v) => v,
        None => if d > 0 {
            i64::MAX
        } else {
            i64::MIN
        },
    }
}

impl InputState {
    /// Nothing held, every encoder at position zero.
    pub fn new() -> (s: Self)
        ensures
            s@ == initial_model(),
    {
        let s = InputState { buttons: [false; 8], encoders: [false; 4], positions: [0; 4] };
        assert(s@.buttons =~= initial_model().buttons);
        assert(s@.encoders =~= initial_model().encoders);
        assert(s@.positions =~= initial_model().positions);
        s
    }

    /// The view of every state is well formed.
    pub proof fn lemma_wf(&self)
        ensures
            self@.wf(),
    {
    }

    pub fn button_held(&self, index: usize) -> (r: bool)
        requires
            index < BUTTON_COUNT,
        ensures
            r == self@.buttons[index as int],
    {
        self.buttons[index]
    }

    pub fn encoder_held(&self, index: usize) -> (r: bool)
        requires
            index < ENCODER_COUNT,
        ensures
            r == self@.encoders[index as int],
    {
        self.encoders[index]
    }

    /// The running position of an encoder: the sum of its twists since the
    /// state was made, held at the bounds of `i64`.
    pub fn position(&self, index: usize) -> (r: i64)
        requires
            index < ENCODER_COUNT,
        ensures
            r as int == self@.positions[index as int],
    {
        self.positions[index]
    }

    /// Applies one decoded report: updates what is held and the encoder
    /// positions, and returns the events in the order they occur.
    pub fn apply(&mut self, input: &Input) -> (events: Vec<InputEvent>)
        ensures
            final(self)@ == step(old(self)@, *input).0,
            events@ == step(old(self)@, *input).1,
            final(self)@.wf(),
    {
        proof {
            self.lemma_wf();
        }
        match input {
            Input::Buttons(a) => {
                let mut events: Vec<InputEvent> = Vec::new();
                let ghost old_buttons = self.buttons@;
                let mut i: usize = 0;
                while i < 8
                    invariant
                        i <= 8,
                        old_buttons.len() == 8,
                        self.buttons@.len() == 8,
                        forall|j: int| 0 <= j < i ==> self.buttons@[j] == a@[j],
                        forall|j: int| i <= j < 8 ==> self.buttons@[j] == old_buttons[j],
                        self.encoders == old(self).encoders,
                        self.positions == old(self).positions,
                        old_buttons == old(self).buttons@,
                        events@ == edges(old_buttons, a@, i as nat, false),
                    decreases 8 - i,
                {
                    let was = self.buttons[i];
                    let now = a[i];
                    if now && !was {
                        events.push(InputEvent::ButtonPressed(i as u8));
                    } else if !now && was {
                        events.push(InputEvent::ButtonReleased(i as u8));
                    }
                    self.buttons[i] = now;
                    i = i + 1;
                }
                assert(self.buttons@ =~= a@);
                assert(self@.positions =~= old(self)@.positions);
                events
            },
            Input::EncoderPress(a) => {
                let mut events: Vec<InputEvent> = Vec::new();
                let ghost old_encoders = self.encoders@;
                let mut i: usize = 0;
                while i < 4
                    invariant
                        i <= 4,
                        old_encoders.len() == 4,
                        self.encoders@.len() == 4,
                        forall|j: int| 0 <= j < i ==> self.encoders@[j] == a@[j],
                        forall|j: int| i <= j < 4 ==> self.encoders@[j] == old_encoders[j],
                        self.buttons == old(self).buttons,
                        self.positions == old(self).positions,
                        old_encoders == old(self).encoders@,
                        events@ == edges(old_encoders, a@, i as nat, true),
                    decreases 4 - i,
                {
                    let was = self.encoders[i];
                    let now = a[i];
                    if now && !was {
                        events.push(InputEvent::EncoderPressed(i as u8));
                    } else if !now && was {
                        events.push(InputEvent::EncoderReleased(i as u8));
                    }
                    self.encoders[i] = now;
                    i = i + 1;
                }
                assert(self.encoders@ =~= a@);
                assert(self@.positions =~= old(self)@.positions);
                events
            },
            Input::EncoderTwist(d) => {
                let mut events: Vec<InputEvent> = Vec::new();
                let ghost old_positions = self.positions@;
                let mut i: usize = 0;
                while i < 4
                    invariant
                        i <= 4,
                        old_positions.len() == 4,
                        self.positions@.len() == 4,
                        forall|j: int|
                            0 <= j < i ==> self.positions@[j] as int == accumulate(
                                old_positions[j] as int,
                                d@[j] as int,
                            ),
                        forall|j: int| i <= j < 4 ==> self.positions@[j] == old_positions[j],
                        self.buttons == old(self).buttons,
                        self.encoders == old(self).encoders,
                        old_positions == old(self).positions@,
                        events@ == twists(d@, i as nat),
                    decreases 4 - i,
                {
                    let delta = d[i];
                    if delta != 0 {
                        events.push(InputEvent::EncoderTwisted(i as u8, delta));
                    }
                    self.positions[i] = accumulate_exec(self.positions[i], delta);
                    i = i + 1;
                }
                assert(self@.positions =~= step(old(self)@, *input).0.positions);
                events
            },
            _ => Vec::new(),
        }
    }

    /// Decodes one raw report and applies it. A report that does not decode
    /// leaves the state as it was and yields the decoder's error.
    pub fn process(&mut self, report: [u8; 14]) -> (r: Result<Vec<InputEvent>, ProtocolError>)
        ensures
            final(self)@.wf(),
            processed(old(self)@, report@, final(self)@, r),
    {
        match Input::decode(report) {
            Ok(input) => {
                let events = self.apply(&input);
                proof {
                    lemma_decode_unique(report@, input);
                }
                Ok(events)
            },
            Err(e) => Err(e),
        }
    }
}

/// Feeds decoded reports to the state machine front to back: the final
/// state and every event, in order.
pub open spec fn run(m: InputModel, inputs: Seq<Input>) -> (InputModel, Seq<InputEvent>)
    decreases inputs.len(),
{
    if inputs.len() == 0 {
        (m, seq![])
    } else {
        let (m1, e1) = step(m, inputs[0]);
        let (m2, e2) = run(m1, inputs.drop_first());
        (m2, e1 + e2)
    }
}

proof fn lemma_no_edges_when_unchanged(s: Seq<bool>, n: nat, encoder: bool)
    ensures
        edges(s, s, n, encoder) == Seq::<InputEvent>::empty(),
    decreases n,
{
    if n > 0 {
        lemma_no_edges_when_unchanged(s, (n - 1) as nat, encoder);
    }
}

proof fn lemma_step_keeps_wf(m: InputModel, input: Input)
    requires
        m.wf(),
    ensures
        step(m, input).0.wf(),
{
    let m1 = step(m, input).0;
    if let Input::EncoderTwist(d) = input {
        assert forall|i: int| 0 <= i < ENCODER_COUNT implies i64::MIN <= #[trigger] m1.positions[i]
            <= i64::MAX by {}
    }
}

/// Repeating a key report, or an encoder press report, changes nothing more:
/// fed `n >= 1` times in a row, it leaves the state that one copy leaves and
/// emits only the events of the first copy, one press or release per key
/// whose held state actually changed.
pub proof fn lemma_repeated_report_emits_once(m: InputModel, input: Input, n: nat)
    requires
        m.wf(),
        n >= 1,
        input is Buttons || input is EncoderPress,
    ensures
        run(m, Seq::new(n, |_i: int| input)) == step(m, input),
    decreases n,
{
    let inputs = Seq::new(n, |_i: int| input);
    let (m1, e1) = step(m, input);
    lemma_step_keeps_wf(m, input);
    match input {
        Input::Buttons(a) => lemma_no_edges_when_unchanged(a@, BUTTON_COUNT as nat, false),
        Input::EncoderPress(a) => lemma_no_edges_when_unchanged(a@, ENCODER_COUNT as nat, true),
        _ => {},
    }
    assert(step(m1, input) == (m1, Seq::<InputEvent>::empty()));
    let rest = Seq::new((n - 1) as nat, |_i: int| input);
    assert(inputs.drop_first() =~= rest);
    assert(inputs[0] == input);
    assert(run(m, inputs) == (run(m1, rest).0, e1 + run(m1, rest).1));
    if n == 1 {
        assert(rest =~= Seq::<Input>::empty());
        assert(run(m1, rest) == (m1, Seq::<InputEvent>::empty()));
    } else {
        lemma_repeated_report_emits_once(m1, input, (n - 1) as nat);
    }
    assert(e1 + Seq::<InputEvent>::empty() =~= e1);
}

/// A twist report moves each encoder's position by exactly its delta as
/// long as the sum stays within `i64`; an encoder that did not turn keeps
/// its position, and held keys and encoders are not touched.
pub proof fn lemma_twist_moves_by_delta(m: InputModel, d: [i8; 4])
    requires
        m.wf(),
    ensures
        ({
            let m1 = step(m, Input::EncoderTwist(d)).0;
            &&& m1.buttons == m.buttons
            &&& m1.encoders == m.encoders
            &&& forall|i: int|
                0 <= i < ENCODER_COUNT && i64::MIN <= m.positions[i] + d[i] <= i64::MAX
                    ==> #[trigger] m1.positions[i] == m.positions[i] + d[i]
            &&& forall|i: int|
                0 <= i < ENCODER_COUNT && d[i] == 0 ==> #[trigger] m1.positions[i]
                    == m.positions[i]
        }),
{
}

/// A report decodes to at most one input.
proof fn lemma_decode_unique(b: Seq<u8>, input: Input)
    requires
        decodes_to(b, Ok::<Input, ProtocolError>(input)),
    ensures
        forall|other: Input|
            #[trigger] decodes_to(b, Ok::<Input, ProtocolError>(other)) ==> other == input,
{
    assert forall|other: Input| #[trigger]
        decodes_to(b, Ok::<Input, ProtocolError>(other)) implies other == input by {
        match (input, other) {
            (Input::Buttons(a1), Input::Buttons(a2)) => {
                assert(a1 =~= a2);
            },
            (Input::EncoderPress(a1), Input::EncoderPress(a2)) => {
                assert(a1 =~= a2);
            },
            (Input::EncoderTwist(d1), Input::EncoderTwist(d2)) => {
                assert forall|i: int| 0 <= i < ENCODER_COUNT implies d1[i] == d2[i] by {
                    assert(d1[i] as int == d2[i] as int);
                }
                assert(d1 =~= d2);
            },
            _ => {},
        }
    }
}

} // verus!
