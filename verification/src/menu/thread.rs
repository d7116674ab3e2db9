//! The threads that the lathe cuts, and what a cut needs to know.

use crate::print::{
    digits, padded, push_all, push_digits, push_number, push_zero_filled, zero_filled, Alignment,
};
use vstd::prelude::*;

verus! {

/// Hundredths of a millimetre per inch.
pub const METRIC_100TH_PER_INCH: u32 = 2540;

/// The size of a thread, in the unit of its family.
#[derive(Copy, Clone, PartialEq, Eq, Debug, Structural)]
pub enum ThreadSize {
    /// Threads per inch.
    Tpi(u16),
    /// Pitch in hundredths of a millimetre.
    Metric(u16),
    /// The number of a British Association thread.
    Ba(u16),
}

/// The pitch of the British Association thread number `ba`, in hundredths
/// of a millimetre: 1 mm for number 0, and nine tenths of the one before,
/// rounded, for each number after it.
pub open spec fn ba_pitch(ba: nat) -> nat
    decreases ba,
{
    if ba == 0 {
        100
    } else {
        (ba_pitch((ba - 1) as nat) * 9 + 5) / 10
    }
}

/// Steps of the stepper per turn of the spindle for a thread of `size` on a
/// carriage that takes `steps_per_inch` steps per inch.
pub open spec fn thread_steps(size: ThreadSize, steps_per_inch: u32) -> int {
    match size {
        ThreadSize::Tpi(tpi) => steps_per_inch as int / tpi as int,
        ThreadSize::Metric(metric) => metric * steps_per_inch / (METRIC_100TH_PER_INCH as int),
        ThreadSize::Ba(ba) => ba_pitch(ba as nat) * steps_per_inch / (METRIC_100TH_PER_INCH as int),
    }
}

/// No British Association pitch is above 1 mm, and the pitches fall with
/// the number.
pub proof fn lemma_ba_pitch_falls(ba: nat)
    ensures
        ba_pitch(ba) <= 100,
        ba > 0 ==> ba_pitch(ba) <= ba_pitch((ba - 1) as nat),
    decreases ba,
{
    if ba > 0 {
        lemma_ba_pitch_falls((ba - 1) as nat);
    }
}

/// The pitch of the British Association thread number `ba`, in hundredths
/// of a millimetre.
pub fn british_association_mm(ba: u16) -> (size: u16)
    ensures
        size == ba_pitch(ba as nat),
        size <= 100,
{
    let mut size: u16 = 100;
    let mut i: u16 = 0;
    while i < ba
        invariant
            i <= ba,
            size == ba_pitch(i as nat),
            size <= 100,
        decreases ba - i,
    {
        size = (size * 9 + 5) / 10;
        i = i + 1;
        proof {
            lemma_ba_pitch_falls(i as nat);
        }
    }
    size
}

impl ThreadSize {
    /// Steps of the stepper per turn of the spindle for this thread.
    pub fn to_steps_per_thread(self, steps_per_inch: u32) -> (steps: u32)
        requires
            self matches ThreadSize::Tpi(tpi) ==> tpi != 0,
            thread_steps(self, steps_per_inch) <= u32::MAX,
        ensures
            steps == thread_steps(self, steps_per_inch),
    {
        match self {
            ThreadSize::Tpi(tpi) => steps_per_inch / (tpi as u32),
            ThreadSize::Metric(metric) => {
                ((metric as u64) * (steps_per_inch as u64) / (METRIC_100TH_PER_INCH as u64)) as u32
            },
            ThreadSize::Ba(ba) => {
                let metric: u16 = british_association_mm(ba);
                ((metric as u64) * (steps_per_inch as u64) / (METRIC_100TH_PER_INCH as u64)) as u32
            },
        }
    }
}

impl ThreadSize {
    /// Steps of the stepper per turn of the spindle for this thread, where
    /// the thread has a pitch and the steps fit 32 bits.
    pub fn checked_steps_per_thread(self, steps_per_inch: u32) -> (steps: Option<u32>)
        ensures
            steps is Some <==> !(self matches ThreadSize::Tpi(0)) && thread_steps(
                self,
                steps_per_inch,
            ) <= u32::MAX,
            steps matches Some(s) ==> s == thread_steps(self, steps_per_inch),
    {
        let wide: u64 = match self {
            ThreadSize::Tpi(tpi) => {
                if tpi == 0 {
                    return None;
                }
                (steps_per_inch / (tpi as u32)) as u64
            },
            ThreadSize::Metric(metric) => {
                assert(metric * steps_per_inch <= 0xffff * 0xffff_ffff) by (nonlinear_arith)
                    requires
                        metric <= 0xffff,
                        steps_per_inch <= 0xffff_ffff,
                ;
                (metric as u64) * (steps_per_inch as u64) / (METRIC_100TH_PER_INCH as u64)
            },
            ThreadSize::Ba(ba) => {
                let metric: u16 = british_association_mm(ba);
                assert(metric * steps_per_inch <= 0xffff * 0xffff_ffff) by (nonlinear_arith)
                    requires
                        metric <= 0xffff,
                        steps_per_inch <= 0xffff_ffff,
                ;
                (metric as u64) * (steps_per_inch as u64) / (METRIC_100TH_PER_INCH as u64)
            },
        };
        if wide <= u32::MAX as u64 {
            Some(wide as u32)
        } else {
            None
        }
    }
}

/// The families of threads on offer.
#[derive(Copy, Clone, PartialEq, Eq, Debug, Structural)]
pub enum ThreadSystem {
    Inch,
    Metric,
    BritishAssociation,
}

/// The sizes on offer in each family, in the units of the family.
pub open spec fn offered(system: ThreadSystem) -> Seq<u16> {
    match system {
        ThreadSystem::Inch => seq![
            4u16,
            5,
            6,
            7,
            8,
            9,
            10,
            11,
            12,
            13,
            14,
            16,
            18,
            20,
            24,
            32,
            40,
            48,
            56,
            64,
        ],
        ThreadSystem::Metric => seq![
            35u16,
            40,
            45,
            50,
            60,
            70,
            80,
            100,
            125,
            150,
            175,
            200,
            250,
            300,
            350,
            400,
            450,
            500,
            550,
            600,
        ],
        ThreadSystem::BritishAssociation => seq![0u16, 1, 2, 3, 4, 5, 6, 7, 8, 9, 10],
    }
}

impl ThreadSystem {
    /// The size that a value of this family's table stands for.
    pub fn size(self, value: u16) -> (size: ThreadSize)
        ensures
            size == match self {
                ThreadSystem::Inch => ThreadSize::Tpi(value),
                ThreadSystem::Metric => ThreadSize::Metric(value),
                ThreadSystem::BritishAssociation => ThreadSize::Ba(value),
            },
    {
        match self {
            ThreadSystem::Inch => ThreadSize::Tpi(value),
            ThreadSystem::Metric => ThreadSize::Metric(value),
            ThreadSystem::BritishAssociation => ThreadSize::Ba(value),
        }
    }

    /// The sizes on offer, in the order of the menu.
    pub fn sizes(self) -> (table: Vec<u16>)
        ensures
            table@ == offered(self),
    {
        let table: Vec<u16> = match self {
            ThreadSystem::Inch => vec![
                4,
                5,
                6,
                7,
                8,
                9,
                10,
                11,
                12,
                13,
                14,
                16,
                18,
                20,
                24,
                32,
                40,
                48,
                56,
                64,
            ],
            ThreadSystem::Metric => vec![
                35,
                40,
                45,
                50,
                60,
                70,
                80,
                100,
                125,
                150,
                175,
                200,
                250,
                300,
                350,
                400,
                450,
                500,
                550,
                600,
            ],
            ThreadSystem::BritishAssociation => vec![0, 1, 2, 3, 4, 5, 6, 7, 8, 9, 10],
        };
        assert(table@ =~= offered(self));
        table
    }

    /// Where the menu of sizes starts: at 16 threads per inch, at a pitch
    /// of 1 mm, at number 6.
    pub fn default_index(self) -> (index: usize)
        ensures
            index < offered(self).len(),
            offered(self)[index as int] == match self {
                ThreadSystem::Inch => 16u16,
                ThreadSystem::Metric => 100u16,
                ThreadSystem::BritishAssociation => 6u16,
            },
    {
        match self {
            ThreadSystem::Inch => 11,
            ThreadSystem::Metric => 7,
            ThreadSystem::BritishAssociation => 6,
        }
    }
}

/// What the operator has chosen for cutting a thread.
pub struct ThreadingOperation {
    thread: ThreadSize,
    /// Where in the turn of the spindle the cut starts, in degrees: 180
    /// offsets the thread by half of its pitch.
    phase: u16,
    /// The position at which the thread ends.
    shoulder_pos: i32,
    /// The position to which the tool is taken back.
    retract_pos: i32,
}

/// The fields of a [`ThreadingOperation`].
pub struct ThreadingView {
    pub thread: ThreadSize,
    pub phase: u16,
    pub shoulder_pos: i32,
    pub retract_pos: i32,
}

impl View for ThreadingOperation {
    type V = ThreadingView;

    closed spec fn view(&self) -> ThreadingView {
        ThreadingView {
            thread: self.thread,
            phase: self.phase,
            shoulder_pos: self.shoulder_pos,
            retract_pos: self.retract_pos,
        }
    }
}

impl ThreadingOperation {
    /// 18 threads per inch, with nothing else chosen yet.
    pub fn new() -> (op: ThreadingOperation)
        ensures
            op@ == (ThreadingView {
                thread: ThreadSize::Tpi(18),
                phase: 0,
                shoulder_pos: 0,
                retract_pos: 0,
            }),
    {
        ThreadingOperation { thread: ThreadSize::Tpi(18), phase: 0, shoulder_pos: 0, retract_pos: 0 }
    }

    /// The thread to cut.
    pub fn thread(&self) -> (thread: ThreadSize)
        ensures
            thread == self@.thread,
    {
        self.thread
    }

    /// Chooses the thread to cut.
    pub fn set_thread(&mut self, thread: ThreadSize)
        ensures
            final(self)@ == (ThreadingView { thread: thread, ..old(self)@ }),
    {
        self.thread = thread;
    }

    /// Where in the turn of the spindle the cut starts, in degrees.
    pub fn phase(&self) -> (phase: u16)
        ensures
            phase == self@.phase,
    {
        self.phase
    }

    /// Chooses where in the turn of the spindle the cut starts.
    pub fn set_phase(&mut self, phase: u16)
        ensures
            final(self)@ == (ThreadingView { phase: phase, ..old(self)@ }),
    {
        self.phase = phase;
    }

    /// The position at which the thread ends.
    pub fn shoulder_pos(&self) -> (position: i32)
        ensures
            position == self@.shoulder_pos,
    {
        self.shoulder_pos
    }

    /// The position to which the tool is taken back.
    pub fn retract_pos(&self) -> (position: i32)
        ensures
            position == self@.retract_pos,
    {
        self.retract_pos
    }

    /// Records the two ends of the cut.
    pub fn set_positions(&mut self, shoulder_pos: i32, retract_pos: i32)
        ensures
            final(self)@ == (ThreadingView {
                shoulder_pos: shoulder_pos,
                retract_pos: retract_pos,
                ..old(self)@
            }),
    {
        self.shoulder_pos = shoulder_pos;
        self.retract_pos = retract_pos;
    }
}

/// A thread size as the display shows it: `" 16 TPI"`, `"1.25mm"` or
/// `"6BA"`.
pub open spec fn size_text(size: ThreadSize) -> Seq<u8> {
    match size {
        ThreadSize::Tpi(tpi) => padded(digits(tpi as nat), Alignment::Right, 3) + seq![
            32u8,
            84,
            80,
            73,
        ],
        ThreadSize::Metric(m) => digits((m / 100) as nat) + seq![46u8] + zero_filled(
            digits((m % 100) as nat),
            2,
        ) + seq![109u8, 109],
        ThreadSize::Ba(ba) => digits(ba as nat) + seq![66u8, 65],
    }
}

/// The line that shows the phase error of a cut, in the form
/// `"Err: -12.5        "`: the sign, the degrees split before their last
/// digit, and blanks to the end of the line.
pub open spec fn error_line(degrees: i32) -> Seq<u8> {
    let size = if degrees < 0 {
        -degrees
    } else {
        degrees as int
    };
    seq![69u8, 114, 114, 58, 32] + seq![
        if degrees < 0 {
            45u8
        } else {
            32u8
        },
    ] + digits((size / 10) as nat) + seq![46u8] + digits((size % 10) as nat) + seq![
        32u8,
        32,
        32,
        32,
        32,
        32,
        32,
        32,
    ]
}

impl ThreadSize {
    /// The thread size as the display shows it.
    pub fn text(&self) -> (out: Vec<u8>)
        ensures
            out@ == size_text(*self),
    {
        let mut out: Vec<u8> = Vec::new();
        match *self {
            ThreadSize::Tpi(tpi) => {
                push_number(&mut out, tpi as u32, Alignment::Right, 3);
                push_all(&mut out, &vec![32u8, 84, 80, 73]);
            },
            ThreadSize::Metric(m) => {
                push_digits(&mut out, (m / 100) as u32);
                out.push(46);
                push_zero_filled(&mut out, (m % 100) as u32, 2);
                push_all(&mut out, &vec![109u8, 109]);
            },
            ThreadSize::Ba(ba) => {
                push_digits(&mut out, ba as u32);
                push_all(&mut out, &vec![66u8, 65]);
            },
        }
        assert(out@ =~= size_text(*self));
        out
    }
}

impl ThreadSystem {
    /// The name of the family in the menu.
    pub fn label(self) -> (label: &'static str)
        ensures
            label@ == match self {
                ThreadSystem::Inch => "Inch"@,
                ThreadSystem::Metric => "Metric"@,
                ThreadSystem::BritishAssociation => "BA"@,
            },
    {
        match self {
            ThreadSystem::Inch => "Inch",
            ThreadSystem::Metric => "Metric",
            ThreadSystem::BritishAssociation => "BA",
        }
    }
}

/// The line of the display that shows the phase error of a cut.
pub fn error_text(degrees: i32) -> (out: Vec<u8>)
    ensures
        out@ == error_line(degrees),
{
    let size: u32 = if degrees < 0 {
        (-(degrees as i64)) as u32
    } else {
        degrees as u32
    };
    let mut out: Vec<u8> = Vec::new();
    push_all(&mut out, &vec![69u8, 114, 114, 58, 32]);
    if degrees < 0 {
        out.push(45);
    } else {
        out.push(32);
    }
    push_digits(&mut out, size / 10);
    out.push(46);
    push_digits(&mut out, size % 10);
    push_all(&mut out, &vec![32u8, 32, 32, 32, 32, 32, 32, 32]);
    assert(out@ =~= error_line(degrees));
    out
}

} // verus!
