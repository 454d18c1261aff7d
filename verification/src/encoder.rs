//! Quadrature decoder: debounced edge detection over two digital lines.
//!
//! The decoder is polled with raw clock/data line samples.  It keeps a
//! rolling bit register of the clock line's recent samples; each poll
//! shifts the new sample in and seeds the high bits, and a single
//! qualifying register value recognizes a validated edge.  This is an
//! edge debounce, not raw edge detection: electrical noise on the clock
//! line cannot produce the qualifying value.  At a validated edge the
//! data line's instantaneous level gives the rotation sense, and the
//! register is reset so each edge yields exactly one event.
//!
//! The polling loop itself runs outside the library on a dedicated
//! execution context; it hands every sample pair to [`QuadratureDecoder::sample`].

use vstd::prelude::*;

use crate::drive::{EncoderSpin, PinLevel};

verus! {

/// A discrete step event, tagged with the direction of travel it stands
/// for.
#[derive(Clone, Copy, Debug, PartialEq, Eq, Structural)]
pub enum Event {
    MovePos,
    MoveNeg,
}

impl Event {
    /// Step event signalled by the data line's level at a validated edge.
    pub open spec fn spec_from_level(l: PinLevel) -> Event {
        match l {
            PinLevel::High => Event::MovePos,
            PinLevel::Low => Event::MoveNeg,
        }
    }

    /// Step event read off the data line.
    pub fn from_level(l: PinLevel) -> (r: Event)
        ensures
            r == Event::spec_from_level(l),
    {
        match l {
            PinLevel::High => Event::MovePos,
            PinLevel::Low => Event::MoveNeg,
        }
    }

    /// The step event that carries the same sense as a rotation event:
    /// counter-clockwise rotation moves the position up.
    pub fn from_spin(s: EncoderSpin) -> (r: Event)
        ensures
            s is Ccw ==> r == Event::MovePos,
            s is Cw ==> r == Event::MoveNeg,
    {
        match s {
            EncoderSpin::Ccw => Event::MovePos,
            EncoderSpin::Cw => Event::MoveNeg,
        }
    }
}

/// Contribution of one clock sample to the rolling register.
pub open spec fn clock_bit(l: PinLevel) -> u16 {
    match l {
        PinLevel::High => 1u16,
        PinLevel::Low => 0u16,
    }
}

/// The rolling register after one more clock sample: the register is
/// shifted left by one, the new sample enters at the bottom, and the
/// high bits are seeded so that only the recent sample history matters.
pub open spec fn shifted_register(state: u16, clock: PinLevel) -> u16 {
    (state << 1u16) | clock_bit(clock) | 0xe000u16
}

/// Whether one more clock sample completes the qualifying debounce
/// pattern: the register takes its single qualifying value.
pub open spec fn edge_qualified(state: u16, clock: PinLevel) -> bool {
    shifted_register(state, clock) == 0xf000u16
}

/// The rolling register that a run of clock samples leaves behind,
/// starting from reset; a qualifying sample resets it.
pub open spec fn register_after(clocks: Seq<PinLevel>) -> u16
    decreases clocks.len(),
{
    if clocks.len() == 0 {
        0u16
    } else {
        let prev = register_after(clocks.drop_last());
        if edge_qualified(prev, clocks.last()) {
            0u16
        } else {
            shifted_register(prev, clocks.last())
        }
    }
}

/// The clock line of a run of clock/data sample pairs.
pub open spec fn clock_lines(samples: Seq<(PinLevel, PinLevel)>) -> Seq<PinLevel> {
    samples.map_values(|p: (PinLevel, PinLevel)| p.0)
}

/// How many samples of a run complete the qualifying pattern.
pub open spec fn qualifying_count(samples: Seq<(PinLevel, PinLevel)>) -> nat
    decreases samples.len(),
{
    if samples.len() == 0 {
        0nat
    } else {
        qualifying_count(samples.drop_last()) + if edge_qualified(
            register_after(clock_lines(samples.drop_last())),
            samples.last().0,
        ) {
            1nat
        } else {
            0nat
        }
    }
}

/// The step events that a run of clock/data sample pairs produces: one
/// per qualifying sample, its sense read off the data line at that
/// sample.
pub open spec fn events_of(samples: Seq<(PinLevel, PinLevel)>) -> Seq<EncoderSpin>
    decreases samples.len(),
{
    if samples.len() == 0 {
        Seq::empty()
    } else {
        let before = events_of(samples.drop_last());
        if edge_qualified(
            register_after(clock_lines(samples.drop_last())),
            samples.last().0,
        ) {
            before.push(EncoderSpin::spec_from_level(samples.last().1))
        } else {
            before
        }
    }
}

/// Law: over any run of samples the decoder emits exactly one step event
/// per qualifying occurrence of the debounce pattern, and no event at
/// all when no occurrence qualifies.
pub proof fn lemma_one_event_per_qualifying_edge(samples: Seq<(PinLevel, PinLevel)>)
    ensures
        events_of(samples).len() == qualifying_count(samples),
        qualifying_count(samples) == 0 ==> events_of(samples) =~= Seq::<EncoderSpin>::empty(),
    decreases samples.len(),
{
    if samples.len() > 0 {
        lemma_one_event_per_qualifying_edge(samples.drop_last());
    }
}

/// The debounce state machine of the quadrature decoder.
pub struct QuadratureDecoder {
    register: u16,
}

impl QuadratureDecoder {
    /// The rolling bit register of recent clock samples.
    pub closed spec fn bits(self) -> u16 {
        self.register
    }

    /// A decoder with the register at reset.
    pub fn new() -> (r: QuadratureDecoder)
        ensures
            r.bits() == 0,
    {
        QuadratureDecoder { register: 0 }
    }

    /// Consume one clock/data sample pair.
    ///
    /// Emits one step event exactly when the clock sample completes the
    /// qualifying pattern, reading the rotation sense off the data line;
    /// the register is then reset so the edge yields no second event.
    pub fn sample(&mut self, clock: PinLevel, data: PinLevel) -> (r: Option<EncoderSpin>)
        ensures
            (r is Some) <==> edge_qualified(old(self).bits(), clock),
            edge_qualified(old(self).bits(), clock) ==> {
                &&& final(self).bits() == 0
                &&& r == Some(EncoderSpin::spec_from_level(data))
            },
            !edge_qualified(old(self).bits(), clock) ==> final(self).bits() == shifted_register(
                old(self).bits(),
                clock,
            ),
    {
        let c: u16 = match clock {
            PinLevel::High => 1,
            PinLevel::Low => 0,
        };
        let next: u16 = (self.register << 1u16) | c | 0xe000;
        if next == 0xf000 {
            self.register = 0;
            Some(EncoderSpin::from_level(data))
        } else {
            self.register = next;
            None
        }
    }
}

/// Run the decoder over a whole recorded run of sample pairs, from
/// reset, and collect the emitted step events.
pub fn decode_samples(samples: &Vec<(PinLevel, PinLevel)>) -> (r: Vec<EncoderSpin>)
    ensures
        r@ == events_of(samples@),
{
    let mut dec = QuadratureDecoder::new();
    let mut out: Vec<EncoderSpin> = Vec::new();
    let mut i: usize = 0;
    while i < samples.len()
        invariant
            i <= samples@.len(),
            dec.bits() == register_after(clock_lines(samples@.take(i as int))),
            out@ == events_of(samples@.take(i as int)),
        decreases samples@.len() - i,
    {
        let p = samples[i];
        proof {
            let prefix = samples@.take(i as int);
            let grown = samples@.take(i + 1 as int);
            assert(grown.drop_last() =~= prefix);
            assert(clock_lines(grown).drop_last() =~= clock_lines(prefix));
            assert(clock_lines(grown).last() == grown.last().0);
        }
        match dec.sample(p.0, p.1) {
            Some(s) => out.push(s),
            None => {},
        }
        i = i + 1;
    }
    proof {
        assert(samples@.take(samples@.len() as int) =~= samples@);
    }
    out
}

} // verus!
