//! The driver of the display.
//!
//! The methods of [Epd4In2V2] that talk to the display give back a [Step]: the caller performs its
//! actions on the hardware. The state of the driver is part of its type, so that a display that is
//! asleep cannot be used by accident.
use vstd::prelude::*;

use crate::buffer::BufferView;
use crate::command::Command;
use crate::exchange::{Effect, Plan, Script, Step, Waiting};
use crate::geometry::{Point, Rectangle};
use crate::mode::{BorderWaveform, RefreshMode};
use crate::operation::Operation;
use crate::script::{
    base_framebuffer, black_and_white_framebuffer, border, configuration, cursor, deep_sleep,
    gray_framebuffer, initialisation, reset_pulse, update, window,
};

verus! {

trait StateInternal {

}

/// A state of the driver.
#[allow(private_bounds)]
pub trait State: StateInternal {

}

/// A state in which the display takes commands.
pub trait StateAwake: State {

}

/// The display is awake, but no refresh mode has been configured yet.
#[derive(Debug, Clone, Copy, PartialEq)]
pub struct StateUninitialized();

impl StateInternal for StateUninitialized {

}

impl State for StateUninitialized {

}

impl StateAwake for StateUninitialized {

}

/// The display is awake and configured for a refresh mode.
#[derive(Debug, Clone, Copy, PartialEq)]
pub struct StateReady {
    mode: RefreshMode,
}

impl StateInternal for StateReady {

}

impl State for StateReady {

}

impl StateAwake for StateReady {

}

/// The display is in deep sleep. It returns to the state `W` when it wakes up.
#[derive(Debug, Clone, Copy, PartialEq)]
pub struct StateAsleep<W: StateAwake> {
    wake_state: W,
}

impl<W: StateAwake> StateInternal for StateAsleep<W> {

}

impl<W: StateAwake> State for StateAsleep<W> {

}

impl StateReady {
    /// The refresh mode that the display is configured for.
    pub closed spec fn mode(self) -> RefreshMode {
        self.mode
    }
}

impl<W: StateAwake> StateAsleep<W> {
    /// The state to return to.
    pub closed spec fn wake_state(self) -> W {
        self.wake_state
    }
}

/// Controls v2 of the 4.2" Waveshare e-paper display.
///
/// * [datasheet](https://files.waveshare.com/upload/9/97/4.2-inch-e-Paper-V2-user-manual.pdf)
/// * [sample code](https://github.com/waveshareteam/e-Paper/blob/master/RaspberryPi_JetsonNano/python/lib/waveshare_epd/epd4in2_V2.py)
///
/// This display supports either black and white or 2-bit grayscale images, depending on the refresh
/// mode. In a black and white image, a clear bit is black and a set bit is white.
///
/// `HW` is whatever the caller needs to perform the actions.
pub struct Epd4In2V2<HW, STATE> {
    hw: HW,
    state: STATE,
    border_waveform: BorderWaveform,
}

impl<HW, STATE> Epd4In2V2<HW, STATE> {
    /// The hardware that the display is connected to.
    pub closed spec fn hw(self) -> HW {
        self.hw
    }

    /// The state of the driver.
    pub closed spec fn state(self) -> STATE {
        self.state
    }

    /// The border that was chosen.
    pub closed spec fn border(self) -> BorderWaveform {
        self.border_waveform
    }

    /// Two drivers are equal but for their states.
    pub open spec fn same_display<S>(self, other: Epd4In2V2<HW, S>) -> bool {
        self.hw() == other.hw() && self.border() == other.border()
    }
}

impl<'a, HW, STATE> Waiting<'a, Epd4In2V2<HW, STATE>> {
    /// Returns the hardware that the display is connected to.
    pub fn hw_mut(&mut self) -> (hw: &mut HW)
        ensures
            *hw == old(self)@.outcome.hw(),
            final(self)@.effects == old(self)@.effects,
            final(self)@.outcome.hw() == *final(hw),
            final(self)@.outcome.state() == old(self)@.outcome.state(),
            final(self)@.outcome.border() == old(self)@.outcome.border(),
    {
        &mut self.outcome_mut().hw
    }
}

impl<HW> Epd4In2V2<HW, StateUninitialized> {
    /// Creates the driver of a display that has not been initialised.
    pub fn new(hw: HW) -> (epd: Self)
        ensures
            epd.hw() == hw,
            epd.border() == BorderWaveform::Default,
    {
        Epd4In2V2 { hw, state: StateUninitialized(), border_waveform: BorderWaveform::Default }
    }
}

impl<HW, STATE: StateAwake> Epd4In2V2<HW, STATE> {
    /// Returns the hardware that the display is connected to.
    pub fn hw_mut(&mut self) -> (hw: &mut HW)
        ensures
            *hw == old(self).hw(),
            final(self).hw() == *final(hw),
            final(self).state() == old(self).state(),
            final(self).border() == old(self).border(),
    {
        &mut self.hw
    }

    /// Initialises the display.
    pub fn init(self, mode: RefreshMode) -> (step: Step<'static, Epd4In2V2<HW, StateReady>>)
        ensures
            step@.effects == initialisation(mode, self.border()),
            step@.outcome.state().mode() == mode,
            step@.outcome.same_display(self),
    {
        let mut script = Script::new();
        script.push_reset_pulse();
        script.push_configuration(mode, self.border_waveform);
        assert(script@ =~= initialisation(mode, self.border()));
        script.into_step(
            Epd4In2V2 {
                hw: self.hw,
                state: StateReady { mode },
                border_waveform: self.border_waveform,
            },
        )
    }

    /// Send the following command and data to the display. Waits until the display is no longer
    /// busy before sending.
    pub fn send<'a>(&self, command: Command, data: &'a [u8]) -> (step: Step<'a, ()>)
        ensures
            step@.effects == seq![Effect::Send(command, data@)],
    {
        let mut script = Script::new();
        script.send(command, data);
        assert(script@ =~= seq![Effect::Send(command, data@)]);
        script.into_step(())
    }

    /// Resets the display with a pulse on its reset pin.
    pub fn reset(self) -> (step: Step<'static, Self>)
        ensures
            step@ == (Plan { effects: reset_pulse(), outcome: self }),
    {
        let mut script = Script::new();
        script.push_reset_pulse();
        assert(script@ =~= reset_pulse());
        script.into_step(self)
    }

    /// Puts the display into deep sleep.
    pub fn sleep(self) -> (step: Step<'static, Epd4In2V2<HW, StateAsleep<STATE>>>)
        ensures
            step@.effects == deep_sleep(),
            step@.outcome.state().wake_state() == self.state(),
            step@.outcome.same_display(self),
    {
        let mut script = Script::new();
        script.send(Command::DeepSleepMode, &[0x01]);
        assert(script@ =~~= deep_sleep());
        script.into_step(
            Epd4In2V2 {
                hw: self.hw,
                state: StateAsleep { wake_state: self.state },
                border_waveform: self.border_waveform,
            },
        )
    }
}

impl<HW, W: StateAwake> Epd4In2V2<HW, StateAsleep<W>> {
    /// Resets the display with a pulse on its reset pin, which ends the deep sleep.
    pub fn reset(self) -> (step: Step<'static, Epd4In2V2<HW, W>>)
        ensures
            step@.effects == reset_pulse(),
            step@.outcome.state() == self.state().wake_state(),
            step@.outcome.same_display(self),
    {
        let mut script = Script::new();
        script.push_reset_pulse();
        assert(script@ =~= reset_pulse());
        script.into_step(
            Epd4In2V2 {
                hw: self.hw,
                state: self.state.wake_state,
                border_waveform: self.border_waveform,
            },
        )
    }
}

impl<HW> Epd4In2V2<HW, StateAsleep<StateUninitialized>> {
    /// Wakes the display up. No refresh mode has been configured yet, so there's nothing to
    /// re-initialise; the caller is expected to call [Epd4In2V2::init] next.
    pub fn wake(self) -> (step: Step<'static, Epd4In2V2<HW, StateUninitialized>>)
        ensures
            step@.effects == reset_pulse(),
            step@.outcome.state() == self.state().wake_state(),
            step@.outcome.same_display(self),
    {
        self.reset()
    }
}

impl<HW> Epd4In2V2<HW, StateAsleep<StateReady>> {
    /// Wakes the display up. Deep sleep clears the display's configuration registers, so they are
    /// resent.
    pub fn wake(self) -> (step: Step<'static, Epd4In2V2<HW, StateReady>>)
        ensures
            step@.effects == initialisation(self.state().wake_state().mode(), self.border()),
            step@.outcome.state() == self.state().wake_state(),
            step@.outcome.same_display(self),
    {
        let state = self.state.wake_state;
        let mut script = Script::new();
        script.push_reset_pulse();
        script.push_configuration(state.mode, self.border_waveform);
        assert(script@ =~= initialisation(state.mode(), self.border()));
        script.into_step(
            Epd4In2V2 { hw: self.hw, state, border_waveform: self.border_waveform },
        )
    }
}

impl<HW> Epd4In2V2<HW, StateReady> {
    /// What an operation does, given the refresh mode and the border of this driver.
    pub open spec fn effects(self, operation: Operation) -> Seq<Effect> {
        operation.effects(self.state().mode(), self.border())
    }

    /// Prepares the display for a refresh mode; if that is the current one, nothing is sent. The
    /// new state is for [Epd4In2V2::settle]. Until then, and so if an action fails, the driver
    /// stays in its old mode.
    pub fn set_refresh_mode(&self, mode: RefreshMode) -> (step: Step<'static, StateReady>)
        ensures
            step@.effects == self.effects(Operation::SetRefreshMode(mode)),
            step@.outcome.mode() == Operation::SetRefreshMode(mode).mode_after(self.state().mode()),
    {
        let mut script = Script::new();
        if self.state.mode == mode {
            script.into_step(self.state)
        } else {
            script.push_configuration(mode, self.border_waveform);
            assert(script@ =~= configuration(mode, self.border()));
            script.into_step(StateReady { mode })
        }
    }

    /// Takes over the state that a change of the refresh mode has led to. Only a state that
    /// [Epd4In2V2::set_refresh_mode] of this driver has yielded tells what the display was sent.
    pub fn settle(&mut self, state: StateReady)
        ensures
            final(self).state() == state,
            final(self).same_display(*old(self)),
    {
        self.state = state;
    }

    /// Changes the border waveform override and applies it to the display. The new border is used
    /// for the next display update, and on any subsequent mode changes. Set to
    /// [BorderWaveform::Default] to revert to the refresh mode's reference value.
    ///
    /// The override is in place even if the command fails.
    pub fn set_border_waveform(&mut self, border_waveform: BorderWaveform) -> (step: Step<
        'static,
        (),
    >)
        ensures
            final(self).hw() == old(self).hw(),
            final(self).state() == old(self).state(),
            final(self).border() == Operation::SetBorderWaveform(border_waveform).border_after(
                old(self).border(),
            ),
            step@.effects == old(self).effects(Operation::SetBorderWaveform(border_waveform)),
    {
        self.border_waveform = border_waveform;
        let mut script = Script::new();
        script.send(Command::SetBorderWaveform, border_waveform.value_for(self.state.mode));
        assert(script@ =~= seq![border(self.state().mode(), border_waveform)]);
        script.into_step(())
    }

    /// Sets the window to which the next image data will be written.
    ///
    /// The x-axis only supports multiples of 8; a window that starts or ends within a group of eight
    /// columns takes in the whole group. Debug builds are meant to stop before that, at a window that
    /// fails [Rectangle::is_byte_aligned].
    pub fn set_window(&self, shape: Rectangle) -> (step: Step<'static, ()>)
        ensures
            step@.effects == self.effects(Operation::SetWindow(shape)),
    {
        let mut script = Script::new();
        script.push_window(shape);
        assert(script@ =~= window(shape));
        script.into_step(())
    }

    /// Sets the cursor position to write the next data to.
    ///
    /// The x-axis only supports multiples of 8; any other position is moved to the start of its
    /// group of eight columns. Debug builds are meant to stop before that, at a position that fails
    /// [Point::is_byte_aligned].
    pub fn set_cursor(&self, position: Point) -> (step: Step<'static, ()>)
        ensures
            step@.effects == self.effects(Operation::SetCursor(position)),
    {
        let mut script = Script::new();
        script.push_cursor(position);
        assert(script@ =~= cursor(position));
        script.into_step(())
    }

    /// Puts what is in the display's memory on the screen.
    pub fn update_display(&self) -> (step: Step<'static, ()>)
        ensures
            step@.effects == self.effects(Operation::UpdateDisplay),
    {
        let mut script = Script::new();
        script.push_update(self.state.mode);
        assert(script@ =~= update(self.state().mode()));
        script.into_step(())
    }

    /// Writes an image to the base framebuffer, against which a partial update compares.
    pub fn write_base_framebuffer<'a>(&self, buf: BufferView<'a, 1, 1>) -> (step: Step<'a, ()>)
        ensures
            step@.effects == self.effects(
                Operation::WriteBaseFramebuffer(buf.window, buf.data@[0]@),
            ),
    {
        let mut script = Script::new();
        script.push_window(buf.window);
        script.push_cursor(buf.window.top_left);
        script.send(Command::WriteHighRam, buf.data[0]);
        assert(script@ =~= base_framebuffer(buf.window, buf.data@[0]@));
        script.into_step(())
    }

    fn black_and_white_script<'a>(&self, buf: BufferView<'a, 1, 1>) -> (script: Script<'a>)
        ensures
            script@ == black_and_white_framebuffer(
                self.state().mode(),
                buf.window,
                buf.data@[0]@,
            ),
    {
        let mut script = Script::new();
        script.push_window(buf.window);
        script.push_cursor(buf.window.top_left);
        script.send(Command::WriteLowRam, buf.data[0]);
        if self.state.mode != RefreshMode::Partial {
            script.send(Command::WriteHighRam, buf.data[0]);
        }
        assert(script@ =~= black_and_white_framebuffer(
            self.state().mode(),
            buf.window,
            buf.data@[0]@,
        ));
        script
    }

    fn gray_script<'a>(&self, buf: BufferView<'a, 1, 2>) -> (script: Script<'a>)
        ensures
            script@ == gray_framebuffer(buf.window, buf.data@[0]@, buf.data@[1]@),
    {
        let mut script = Script::new();
        script.push_window(buf.window);
        script.push_cursor(buf.window.top_left);
        script.send(Command::WriteLowRam, buf.data[0]);
        script.send(Command::WriteHighRam, buf.data[1]);
        assert(script@ =~= gray_framebuffer(buf.window, buf.data@[0]@, buf.data@[1]@));
        script
    }
}

/// A display that shows images of `FRAMES` framebuffers of `BITS` bits per pixel.
pub trait DisplaySimple<const BITS: usize, const FRAMES: usize> {
    /// What writes an image to the display's memory and puts it on the screen.
    spec fn displaying(&self, buf: BufferView<'_, BITS, FRAMES>) -> Seq<Effect>;

    /// What writes an image to the display's memory.
    spec fn writing(&self, buf: BufferView<'_, BITS, FRAMES>) -> Seq<Effect>;

    /// Writes an image to the display's memory and puts it on the screen.
    fn display_framebuffer<'a>(&self, buf: BufferView<'a, BITS, FRAMES>) -> (step: Step<'a, ()>)
        ensures
            step@.effects == self.displaying(buf),
    ;

    /// Writes an image to the display's memory.
    fn write_framebuffer<'a>(&self, buf: BufferView<'a, BITS, FRAMES>) -> (step: Step<'a, ()>)
        ensures
            step@.effects == self.writing(buf),
    ;
}

impl<HW> DisplaySimple<1, 1> for Epd4In2V2<HW, StateReady> {
    open spec fn displaying(&self, buf: BufferView<'_, 1, 1>) -> Seq<Effect> {
        self.effects(Operation::DisplayFramebuffer(buf.window, buf.data@[0]@))
    }

    open spec fn writing(&self, buf: BufferView<'_, 1, 1>) -> Seq<Effect> {
        self.effects(Operation::WriteFramebuffer(buf.window, buf.data@[0]@))
    }

    fn display_framebuffer<'a>(&self, buf: BufferView<'a, 1, 1>) -> (step: Step<'a, ()>) {
        let mut script = self.black_and_white_script(buf);
        script.push_update(self.state.mode);
        script.into_step(())
    }

    fn write_framebuffer<'a>(&self, buf: BufferView<'a, 1, 1>) -> (step: Step<'a, ()>) {
        self.black_and_white_script(buf).into_step(())
    }
}

impl<HW> DisplaySimple<1, 2> for Epd4In2V2<HW, StateReady> {
    open spec fn displaying(&self, buf: BufferView<'_, 1, 2>) -> Seq<Effect> {
        self.effects(
            Operation::DisplayGrayFramebuffer(buf.window, buf.data@[0]@, buf.data@[1]@),
        )
    }

    open spec fn writing(&self, buf: BufferView<'_, 1, 2>) -> Seq<Effect> {
        self.effects(Operation::WriteGrayFramebuffer(buf.window, buf.data@[0]@, buf.data@[1]@))
    }

    fn display_framebuffer<'a>(&self, buf: BufferView<'a, 1, 2>) -> (step: Step<'a, ()>) {
        let mut script = self.gray_script(buf);
        script.push_update(self.state.mode);
        script.into_step(())
    }

    fn write_framebuffer<'a>(&self, buf: BufferView<'a, 1, 2>) -> (step: Step<'a, ()>) {
        self.gray_script(buf).into_step(())
    }
}

/// [Operation::Init] is what [Epd4In2V2::init] does with a display that is ready.
pub proof fn lemma_init_is_an_operation<HW>(
    epd: Epd4In2V2<HW, StateReady>,
    mode: RefreshMode,
    step: Step<'static, Epd4In2V2<HW, StateReady>>,
)
    requires
        call_ensures(Epd4In2V2::<HW, StateReady>::init, (epd, mode), step),
    ensures
        step@.effects == epd.effects(Operation::Init(mode)),
        step@.outcome.state().mode() == Operation::Init(mode).mode_after(epd.state().mode()),
        step@.outcome.border() == Operation::Init(mode).border_after(epd.border()),
        step@.outcome.hw() == epd.hw(),
{
}

/// [Operation::SleepAndWake] is what [Epd4In2V2::sleep] and then [Epd4In2V2::wake] do with a display
/// that is ready. The driver is afterwards what it was before.
pub proof fn lemma_sleep_and_wake_is_an_operation<HW>(
    epd: Epd4In2V2<HW, StateReady>,
    sleep: Step<'static, Epd4In2V2<HW, StateAsleep<StateReady>>>,
    wake: Step<'static, Epd4In2V2<HW, StateReady>>,
)
    requires
        call_ensures(Epd4In2V2::<HW, StateReady>::sleep, (epd,), sleep),
        call_ensures(
            Epd4In2V2::<HW, StateAsleep<StateReady>>::wake,
            (sleep@.outcome,),
            wake,
        ),
    ensures
        sleep@.effects + wake@.effects == epd.effects(Operation::SleepAndWake),
        wake@.outcome == epd,
{
}

/// A display that was put to sleep and then woken up, or reset, has the driver that it had before:
/// the state and the border are kept.
pub proof fn lemma_sleep_keeps_the_driver<HW, W: StateAwake>(
    before: Epd4In2V2<HW, W>,
    asleep: Epd4In2V2<HW, StateAsleep<W>>,
    after: Epd4In2V2<HW, W>,
)
    requires
        asleep.state().wake_state() == before.state(),
        asleep.same_display(before),
        after.state() == asleep.state().wake_state(),
        after.same_display(asleep),
    ensures
        after == before,
{
}

} // verus!
