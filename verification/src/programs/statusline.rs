//! The status line at the top of the screen: a name, the states of the
//! virtual terminals and a clock.

use crate::util::{byte_len, push_char};
use crate::vga::primitives::BUFFER_COLS;
use vstd::prelude::*;
use vstd::string::{StringExecFns, StringSliceAdditionalSpecFns};

verus! {

/// The state of one virtual terminal, as the status line shows it.
#[derive(Clone, Copy, PartialEq, Eq, Debug, Structural)]
pub enum VtsState {
    Active,
    Inactive,
    Alert,
    NotUsed,
}

impl Default for VtsState {
    fn default() -> (state: VtsState)
        ensures
            state == VtsState::NotUsed,
    {
        VtsState::NotUsed
    }
}

impl VtsState {
    /// The five characters that stand for the state.
    pub open spec fn spec_text(self) -> Seq<char> {
        match self {
            VtsState::Active => seq![' ', '[', 'X', ']', ' '],
            VtsState::Inactive => seq![' ', '[', '-', ']', ' '],
            VtsState::Alert => seq![' ', '[', '!', ']', ' '],
            VtsState::NotUsed => seq![' ', '[', ' ', ']', ' '],
        }
    }

    /// The mark between the brackets.
    pub fn mark(self) -> (mark: char)
        ensures
            mark == self.spec_text()[2],
    {
        match self {
            VtsState::Active => 'X',
            VtsState::Inactive => '-',
            VtsState::Alert => '!',
            VtsState::NotUsed => ' ',
        }
    }

    /// Appends the five characters of the state to a text.
    pub fn write_to(self, text: &mut String)
        ensures
            final(text)@ == old(text)@ + self.spec_text(),
    {
        push_char(text, ' ');
        push_char(text, '[');
        push_char(text, self.mark());
        push_char(text, ']');
        push_char(text, ' ');
        proof {
            assert(text@ =~= old(text)@ + self.spec_text());
        }
    }
}

/// The character of a decimal digit.
pub open spec fn digit(value: u8) -> char
    recommends
        value <= 9,
{
    if value == 0 {
        '0'
    } else if value == 1 {
        '1'
    } else if value == 2 {
        '2'
    } else if value == 3 {
        '3'
    } else if value == 4 {
        '4'
    } else if value == 5 {
        '5'
    } else if value == 6 {
        '6'
    } else if value == 7 {
        '7'
    } else if value == 8 {
        '8'
    } else {
        '9'
    }
}

/// A number in decimal, filled up on the left to two characters.
pub open spec fn two_wide(value: u8, fill: char) -> Seq<char> {
    if value < 10 {
        seq![fill, digit(value)]
    } else if value < 100 {
        seq![digit(value / 10), digit(value % 10)]
    } else {
        seq![digit(value / 100), digit((value / 10) % 10), digit(value % 10)]
    }
}

fn digit_char(value: u8) -> (character: char)
    requires
        value <= 9,
    ensures
        character == digit(value),
{
    if value == 0 {
        '0'
    } else if value == 1 {
        '1'
    } else if value == 2 {
        '2'
    } else if value == 3 {
        '3'
    } else if value == 4 {
        '4'
    } else if value == 5 {
        '5'
    } else if value == 6 {
        '6'
    } else if value == 7 {
        '7'
    } else if value == 8 {
        '8'
    } else {
        '9'
    }
}

fn write_two_wide(text: &mut String, value: u8, fill: char)
    ensures
        final(text)@ == old(text)@ + two_wide(value, fill),
{
    if value < 10 {
        push_char(text, fill);
        push_char(text, digit_char(value));
    } else if value < 100 {
        push_char(text, digit_char(value / 10));
        push_char(text, digit_char(value % 10));
    } else {
        push_char(text, digit_char(value / 100));
        push_char(text, digit_char((value / 10) % 10));
        push_char(text, digit_char(value % 10));
    }
    proof {
        assert(text@ =~= old(text)@ + two_wide(value, fill));
    }
}

/// The time since the status line was started.
#[derive(Clone, Copy, PartialEq, Eq, Debug, Structural)]
pub struct Clock {
    pub hours: u8,
    pub minutes: u8,
    pub seconds: u8,
}

impl Default for Clock {
    fn default() -> (clock: Clock)
        ensures
            clock == (Clock { hours: 0, minutes: 0, seconds: 0 }),
    {
        Clock { hours: 0, minutes: 0, seconds: 0 }
    }
}

impl Clock {
    /// The clock one second later. Sixty seconds make a minute, sixty
    /// minutes an hour, and after ninety-nine hours the hours start over.
    pub open spec fn ticked(self) -> Clock {
        let second_over = self.seconds + 1 >= 60;
        let minutes = if second_over {
            self.minutes + 1
        } else {
            self.minutes as int
        };
        let minute_over = minutes >= 60;
        let hours = if minute_over {
            self.hours + 1
        } else {
            self.hours as int
        };
        Clock {
            hours: if hours > 99 {
                0
            } else {
                hours as u8
            },
            minutes: if minute_over {
                0
            } else {
                minutes as u8
            },
            seconds: if second_over {
                0
            } else {
                (self.seconds + 1) as u8
            },
        }
    }

    /// Whether the clock can be advanced without a field running over.
    pub open spec fn can_tick(self) -> bool {
        &&& self.seconds < 255
        &&& self.seconds >= 59 ==> self.minutes < 255
        &&& (self.minutes >= 60 || (self.seconds >= 59 && self.minutes >= 59)) ==> self.hours
            < 255
    }

    /// The clock shows a time of day: it stays one under `tick`.
    pub open spec fn valid(self) -> bool {
        self.hours <= 99 && self.minutes < 60 && self.seconds < 60
    }

    /// A valid clock can always be advanced and stays valid.
    pub proof fn lemma_valid_clock_ticks(self)
        requires
            self.valid(),
        ensures
            self.can_tick(),
            self.ticked().valid(),
    {
    }

    /// Advances the clock by one second.
    pub fn tick(&mut self)
        requires
            old(self).can_tick(),
        ensures
            *final(self) == old(self).ticked(),
    {
        self.seconds = self.seconds + 1;
        if self.seconds >= 60 {
            self.seconds = 0;
            self.minutes = self.minutes + 1;
        }
        if self.minutes >= 60 {
            self.minutes = 0;
            self.hours = self.hours + 1;
        }
        if self.hours > 99 {
            self.hours = 0;
        }
    }

    /// The time as `HH:mm:ss`: the hours filled up with a space, minutes and
    /// seconds with a zero.
    pub open spec fn spec_text(self) -> Seq<char> {
        two_wide(self.hours, ' ') + seq![':'] + two_wide(self.minutes, '0') + seq![':']
            + two_wide(self.seconds, '0')
    }

    /// Appends the time to a text.
    pub fn write_to(&self, text: &mut String)
        ensures
            final(text)@ == old(text)@ + self.spec_text(),
    {
        write_two_wide(text, self.hours, ' ');
        push_char(text, ':');
        write_two_wide(text, self.minutes, '0');
        push_char(text, ':');
        write_two_wide(text, self.seconds, '0');
        proof {
            assert(text@ =~= old(text)@ + self.spec_text());
        }
    }

    /// The time as `HH:mm:ss`.
    pub fn text(&self) -> (text: String)
        ensures
            text@ == self.spec_text(),
    {
        let mut text = String::new();
        self.write_to(&mut text);
        proof {
            assert(text@ =~= self.spec_text());
        }
        text
    }

    /// A valid clock is shown in eight characters.
    pub proof fn lemma_text_is_eight_wide(self)
        requires
            self.valid(),
        ensures
            self.spec_text().len() == 8,
    {
    }
}

/// The texts of the states, one after the other.
pub open spec fn states_text(states: Seq<VtsState>) -> Seq<char>
    decreases states.len(),
{
    if states.len() == 0 {
        Seq::<char>::empty()
    } else {
        states_text(states.drop_last()) + states.last().spec_text()
    }
}

/// Every state takes five characters.
pub proof fn lemma_states_text_len(states: Seq<VtsState>)
    ensures
        states_text(states).len() == 5 * states.len(),
    decreases states.len(),
{
    if states.len() > 0 {
        lemma_states_text_len(states.drop_last());
    }
}

/// As many spaces as asked for.
pub open spec fn spaces(count: nat) -> Seq<char> {
    Seq::new(count, |i: int| ' ')
}

/// How many spaces separate the states from the clock of a status line
/// whose name takes `name_len` bytes and which shows `slots` states: what is
/// left of the width of the screen once name, states and the eight
/// characters of the clock are counted.
pub open spec fn padding(name_len: nat, slots: nat) -> nat {
    if name_len + 8 + 5 * slots >= BUFFER_COLS {
        0
    } else {
        (BUFFER_COLS - (name_len + 8 + 5 * slots)) as nat
    }
}

/// The top line of the screen: a name, the states of `T` virtual terminals
/// and a clock.
pub struct StatusLine<const T: usize> {
    name: &'static str,
    vts: Vec<VtsState>,
    clock: Clock,
    ticks: usize,
}

impl<const T: usize> StatusLine<T> {
    /// The name at the left of the line.
    pub closed spec fn name(&self) -> Seq<char> {
        self.name@
    }

    /// The length of the name in bytes.
    pub closed spec fn name_len(&self) -> nat {
        self.name.spec_bytes().len()
    }

    /// The states of the virtual terminals.
    pub closed spec fn states(&self) -> Seq<VtsState> {
        self.vts@
    }

    /// The clock at the right of the line.
    pub closed spec fn clock(&self) -> Clock {
        self.clock
    }

    /// The line has one state for each of its `T` virtual terminals.
    pub open spec fn wf(&self) -> bool {
        self.states().len() == T
    }

    /// The text of the line.
    pub open spec fn spec_text(&self) -> Seq<char> {
        self.name() + states_text(self.states()) + spaces(
            padding(self.name_len(), self.states().len()),
        ) + self.clock().spec_text()
    }

    /// The line is exactly as wide as the screen, if its name is written
    /// with one byte for each character, name and states leave room for the
    /// clock, and the clock shows a time of day.
    pub proof fn lemma_text_is_as_wide_as_the_screen(&self)
        requires
            self.name().len() == self.name_len(),
            self.name_len() + 8 + 5 * self.states().len() <= BUFFER_COLS,
            self.clock().valid(),
        ensures
            self.spec_text().len() == BUFFER_COLS,
    {
        lemma_states_text_len(self.states());
        self.clock().lemma_text_is_eight_wide();
    }

    /// A line with the given name, no virtual terminal in use, and the
    /// clock at zero.
    pub fn new(name: &'static str) -> (line: Self)
        ensures
            line.wf(),
            line.name() == name@,
            line.clock() == (Clock { hours: 0, minutes: 0, seconds: 0 }),
            forall|i: int| 0 <= i < T ==> #[trigger] line.states()[i] == VtsState::NotUsed,
    {
        let mut vts: Vec<VtsState> = Vec::new();
        let mut i: usize = 0;
        while i < T
            invariant
                i <= T,
                vts@.len() == i,
                forall|k: int| 0 <= k < i ==> #[trigger] vts@[k] == VtsState::NotUsed,
            decreases T - i,
        {
            vts.push(VtsState::default());
            i = i + 1;
        }
        Self { name, vts, clock: Clock::default(), ticks: 0 }
    }

    /// The text to show: always as wide as the screen, if name and states
    /// leave room for the clock.
    pub fn update(&self) -> (text: String)
        requires
            self.wf(),
        ensures
            text@ == self.spec_text(),
    {
        let mut text = String::new();
        text.append(self.name);
        let mut i: usize = 0;
        while i < self.vts.len()
            invariant
                i <= self.vts@.len(),
                text@ == self.name() + states_text(self.states().take(i as int)),
            decreases self.vts@.len() - i,
        {
            proof {
                assert(self.states().take(i as int + 1).drop_last() =~= self.states().take(
                    i as int,
                ));
                assert(self.states().take(i as int + 1).last() == self.states()[i as int]);
            }
            self.vts[i].write_to(&mut text);
            proof {
                assert(text@ =~= self.name() + states_text(self.states().take(i as int + 1)));
            }
            i = i + 1;
        }
        proof {
            assert(self.states().take(i as int) =~= self.states());
        }
        let used: u128 = (byte_len(self.name) as u128) + 8 + 5 * (self.vts.len() as u128);
        let fill: u128 = if used >= BUFFER_COLS as u128 {
            0
        } else {
            BUFFER_COLS as u128 - used
        };
        let ghost shown = text@;
        let mut k: u128 = 0;
        while k < fill
            invariant
                k <= fill,
                fill == padding(self.name_len(), self.states().len()),
                text@ == shown + spaces(k as nat),
            decreases fill - k,
        {
            push_char(&mut text, ' ');
            proof {
                assert(text@ =~= shown + spaces((k + 1) as nat));
            }
            k = k + 1;
        }
        self.clock.write_to(&mut text);
        text
    }

    pub fn set_name(&mut self, name: &'static str)
        ensures
            final(self).name() == name@,
            final(self).states() == old(self).states(),
            final(self).clock() == old(self).clock(),
    {
        self.name = name;
    }

    /// Advances the clock by one second and returns the text to show.
    pub fn tick(&mut self) -> (text: String)
        requires
            old(self).wf(),
            old(self).clock().can_tick(),
        ensures
            final(self).wf(),
            final(self).clock() == old(self).clock().ticked(),
            final(self).name() == old(self).name(),
            final(self).states() == old(self).states(),
            text@ == final(self).spec_text(),
    {
        self.clock.tick();
        self.update()
    }

    /// Asked to set the state of the virtual terminal `id`, turns the
    /// request down: as it stands, every request that names one of the
    /// line's virtual terminals is answered with `None`, and the line stays
    /// as it is.
    pub fn update_vts_state(&mut self, id: usize, state: VtsState) -> (updated: Option<()>)
        requires
            old(self).wf(),
            id < T,
        ensures
            updated.is_none(),
            *final(self) == *old(self),
    {
        if id < self.vts.len() || self.vts[id] != state {
            return None;
        }
        self.vts[id] = state;
        Some(())
    }

    pub fn get_clock(&self) -> (clock: Clock)
        ensures
            clock == self.clock(),
    {
        self.clock
    }
}

} // verus!
