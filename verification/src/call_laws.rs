//! What the caller of each function can rely on.
//!
//! Each law takes the arguments and the result of a call and says how they relate. What the
//! operations achieve is said in [crate::operation_laws].
use vstd::prelude::*;

use crate::buffer::{BinaryBuffer, BufferView, Gray2SplitBuffer};
use crate::command::Command;
use crate::driver::{
    DisplaySimple, Epd4In2V2, StateAsleep, StateAwake, StateReady, StateUninitialized,
};
use crate::exchange::{Action, Effect, Payload, PinState, Step, Waiting};
use crate::geometry::{split_low_and_high, Point, Rectangle, Size};
use crate::mode::{BorderWaveform, RefreshMode};
use crate::operation::Operation;

verus! {

/// A new driver holds the hardware that it was given and leaves the border to the refresh mode.
pub proof fn lemma_new_call<HW>(hw: HW, epd: Epd4In2V2<HW, StateUninitialized>)
    requires
        call_ensures(Epd4In2V2::<HW, StateUninitialized>::new, (hw,), epd),
    ensures
        epd.hw() == hw,
        epd.border() == BorderWaveform::Default,
{
}

/// Initialising a display that is awake, in whichever state, is the same operation. The driver is
/// then in the mode that was asked for; its hardware and its border are kept.
pub proof fn lemma_init_call<HW, STATE: StateAwake>(
    epd: Epd4In2V2<HW, STATE>,
    mode: RefreshMode,
    any_mode: RefreshMode,
    step: Step<'static, Epd4In2V2<HW, StateReady>>,
)
    requires
        call_ensures(Epd4In2V2::<HW, STATE>::init, (epd, mode), step),
    ensures
        step@.effects == Operation::Init(mode).effects(any_mode, epd.border()),
        step@.outcome.state().mode() == mode,
        step@.outcome.border() == epd.border(),
        step@.outcome.hw() == epd.hw(),
{
}

/// Sending a command is that command with its data and nothing else.
pub proof fn lemma_send_call<'a, HW, STATE: StateAwake>(
    epd: Epd4In2V2<HW, STATE>,
    command: Command,
    data: &'a [u8],
    step: Step<'a, ()>,
)
    requires
        call_ensures(Epd4In2V2::<HW, STATE>::send, (&epd, command, data), step),
    ensures
        step@.effects.len() == 1,
        step@.effects[0] == Effect::Send(command, data@),
{
}

/// Resetting a display drives its reset pin low once, for 2 ms, with the pin high for 100 ms before
/// and after. It does the same to a display that is awake and to one that is asleep, and the driver
/// of the latter is then in the state that it was put to sleep in.
pub proof fn lemma_reset_call<HW, STATE: StateAwake>(
    awake: Epd4In2V2<HW, STATE>,
    asleep: Epd4In2V2<HW, StateAsleep<STATE>>,
    step: Step<'static, Epd4In2V2<HW, STATE>>,
    waking_step: Step<'static, Epd4In2V2<HW, STATE>>,
)
    requires
        call_ensures(Epd4In2V2::<HW, STATE>::reset, (awake,), step),
        call_ensures(Epd4In2V2::<HW, StateAsleep<STATE>>::reset, (asleep,), waking_step),
    ensures
        step@.effects == seq![
            Effect::SetReset(PinState::High),
            Effect::DelayMs(100),
            Effect::SetReset(PinState::Low),
            Effect::DelayMs(2),
            Effect::SetReset(PinState::High),
            Effect::DelayMs(100),
        ],
        waking_step@.effects == step@.effects,
        step@.outcome == awake,
        waking_step@.outcome.state() == asleep.state().wake_state(),
        waking_step@.outcome.border() == asleep.border(),
        waking_step@.outcome.hw() == asleep.hw(),
{
}

/// Putting a display to sleep is one command, and the driver remembers its state, its border and its
/// hardware.
pub proof fn lemma_sleep_call<HW, STATE: StateAwake>(
    epd: Epd4In2V2<HW, STATE>,
    step: Step<'static, Epd4In2V2<HW, StateAsleep<STATE>>>,
)
    requires
        call_ensures(Epd4In2V2::<HW, STATE>::sleep, (epd,), step),
    ensures
        step@.effects.len() == 1,
        step@.effects[0] == Effect::Send(Command::DeepSleepMode, seq![0x01u8]),
        step@.outcome.state().wake_state() == epd.state(),
        step@.outcome.border() == epd.border(),
        step@.outcome.hw() == epd.hw(),
{
}

/// Waking up a display that was never initialised is resetting it, and nothing more.
pub proof fn lemma_wake_uninitialized_call<HW>(
    asleep: Epd4In2V2<HW, StateAsleep<StateUninitialized>>,
    wake: Step<'static, Epd4In2V2<HW, StateUninitialized>>,
    reset: Step<'static, Epd4In2V2<HW, StateUninitialized>>,
)
    requires
        call_ensures(Epd4In2V2::<HW, StateAsleep<StateUninitialized>>::wake, (asleep,), wake),
        call_ensures(Epd4In2V2::<HW, StateAsleep<StateUninitialized>>::reset, (asleep,), reset),
    ensures
        wake@.effects == reset@.effects,
        wake@.outcome.state() == asleep.state().wake_state(),
        wake@.outcome.border() == asleep.border(),
        wake@.outcome.hw() == asleep.hw(),
{
}

/// Waking up a display that was ready is resetting it and then initialising it in the mode that it
/// was in: it does what `init` does, with the mode and the border of before the sleep.
pub proof fn lemma_wake_ready_call<HW>(
    ready: Epd4In2V2<HW, StateReady>,
    sleep: Step<'static, Epd4In2V2<HW, StateAsleep<StateReady>>>,
    wake: Step<'static, Epd4In2V2<HW, StateReady>>,
    init: Step<'static, Epd4In2V2<HW, StateReady>>,
)
    requires
        call_ensures(Epd4In2V2::<HW, StateReady>::sleep, (ready,), sleep),
        call_ensures(
            Epd4In2V2::<HW, StateAsleep<StateReady>>::wake,
            (sleep@.outcome,),
            wake,
        ),
        call_ensures(Epd4In2V2::<HW, StateReady>::init, (ready, ready.state().mode()), init),
    ensures
        wake@.effects == init@.effects,
        wake@.outcome.state() == ready.state(),
        wake@.outcome.border() == ready.border(),
        wake@.outcome.hw() == ready.hw(),
{
}

/// Changing the refresh mode is the operation of that name, and leads to the mode that was asked
/// for.
pub proof fn lemma_set_refresh_mode_call<HW>(
    epd: Epd4In2V2<HW, StateReady>,
    mode: RefreshMode,
    step: Step<'static, StateReady>,
)
    requires
        call_ensures(Epd4In2V2::<HW, StateReady>::set_refresh_mode, (&epd, mode), step),
    ensures
        step@.effects == Operation::SetRefreshMode(mode).effects(epd.state().mode(), epd.border()),
        step@.outcome.mode() == mode,
        mode == epd.state().mode() ==> step@.effects.len() == 0,
{
}

/// A display that is initialised in one mode and then changed to another is sent what it would be
/// sent by initialising it in the other mode, but for the reset pulse. Its driver is then in the same mode.
pub proof fn lemma_mode_change_matches_init<HW>(
    epd: Epd4In2V2<HW, StateReady>,
    mode: RefreshMode,
    change: Step<'static, StateReady>,
    init: Step<'static, Epd4In2V2<HW, StateReady>>,
    reset: Step<'static, Epd4In2V2<HW, StateReady>>,
)
    requires
        epd.state().mode() != mode,
        call_ensures(Epd4In2V2::<HW, StateReady>::set_refresh_mode, (&epd, mode), change),
        call_ensures(Epd4In2V2::<HW, StateReady>::init, (epd, mode), init),
        call_ensures(Epd4In2V2::<HW, StateReady>::reset, (epd,), reset),
    ensures
        init@.effects == reset@.effects + change@.effects,
        init@.outcome.state().mode() == change@.outcome.mode(),
{
    assert(init@.effects =~= reset@.effects + change@.effects);
}

/// Taking over a state changes the state of the driver and nothing else.
pub proof fn lemma_settle_call<HW>(epd: &mut Epd4In2V2<HW, StateReady>, state: StateReady)
    requires
        call_ensures(Epd4In2V2::<HW, StateReady>::settle, (epd, state), ()),
    ensures
        final(epd).state() == state,
        final(epd).border() == old(epd).border(),
        final(epd).hw() == old(epd).hw(),
{
}

/// The hardware that is handed out is that of the driver, and changing it changes nothing else. So it
/// is with the hardware of an operation that waits for an action.
pub proof fn lemma_hw_mut_calls<'a, HW, STATE: StateAwake>(
    epd: &mut Epd4In2V2<HW, STATE>,
    hw: &mut HW,
    waiting: &mut Waiting<'a, Epd4In2V2<HW, STATE>>,
    waiting_hw: &mut HW,
)
    requires
        call_ensures(Epd4In2V2::<HW, STATE>::hw_mut, (epd,), hw),
        call_ensures(Waiting::<'a, Epd4In2V2<HW, STATE>>::hw_mut, (waiting,), waiting_hw),
    ensures
        *old(hw) == old(epd).hw(),
        *final(hw) == final(epd).hw(),
        final(epd).state() == old(epd).state(),
        final(epd).border() == old(epd).border(),
        *old(waiting_hw) == old(waiting)@.outcome.hw(),
        *final(waiting_hw) == final(waiting)@.outcome.hw(),
        final(waiting)@.effects == old(waiting)@.effects,
        final(waiting)@.outcome.state() == old(waiting)@.outcome.state(),
        final(waiting)@.outcome.border() == old(waiting)@.outcome.border(),
{
}

/// Changing the border is the operation of that name. The driver keeps the border from then on, with
/// its mode and its hardware as they were.
pub proof fn lemma_set_border_waveform_call<HW>(
    epd: &mut Epd4In2V2<HW, StateReady>,
    choice: BorderWaveform,
    step: Step<'static, ()>,
)
    requires
        call_ensures(Epd4In2V2::<HW, StateReady>::set_border_waveform, (epd, choice), step),
    ensures
        step@.effects == Operation::SetBorderWaveform(choice).effects(
            old(epd).state().mode(),
            old(epd).border(),
        ),
        final(epd).border() == choice,
        final(epd).state() == old(epd).state(),
        final(epd).hw() == old(epd).hw(),
{
}

/// Setting the window is the operation of that name on the window that was given.
pub proof fn lemma_set_window_call<HW>(
    epd: Epd4In2V2<HW, StateReady>,
    shape: Rectangle,
    step: Step<'static, ()>,
)
    requires
        call_ensures(Epd4In2V2::<HW, StateReady>::set_window, (&epd, shape), step),
    ensures
        step@.effects == Operation::SetWindow(shape).effects(epd.state().mode(), epd.border()),
{
}

/// Setting the cursor is the operation of that name on the position that was given.
pub proof fn lemma_set_cursor_call<HW>(
    epd: Epd4In2V2<HW, StateReady>,
    position: Point,
    step: Step<'static, ()>,
)
    requires
        call_ensures(Epd4In2V2::<HW, StateReady>::set_cursor, (&epd, position), step),
    ensures
        step@.effects == Operation::SetCursor(position).effects(epd.state().mode(), epd.border()),
{
}

/// Updating the screen is the operation of that name in the driver's mode.
pub proof fn lemma_update_display_call<HW>(
    epd: Epd4In2V2<HW, StateReady>,
    step: Step<'static, ()>,
)
    requires
        call_ensures(Epd4In2V2::<HW, StateReady>::update_display, (&epd,), step),
    ensures
        step@.effects == Operation::UpdateDisplay.effects(epd.state().mode(), epd.border()),
{
}

/// Writing the base is setting the window to that of the image, setting the cursor to its top left
/// corner, and sending the image to the high framebuffer.
pub proof fn lemma_write_base_framebuffer_call<'a, HW>(
    epd: Epd4In2V2<HW, StateReady>,
    buf: BufferView<'a, 1, 1>,
    step: Step<'a, ()>,
    window: Step<'static, ()>,
    cursor: Step<'static, ()>,
    high: Step<'a, ()>,
)
    requires
        call_ensures(Epd4In2V2::<HW, StateReady>::write_base_framebuffer, (&epd, buf), step),
        call_ensures(Epd4In2V2::<HW, StateReady>::set_window, (&epd, buf.window), window),
        call_ensures(Epd4In2V2::<HW, StateReady>::set_cursor, (&epd, buf.window.top_left), cursor),
        call_ensures(
            Epd4In2V2::<HW, StateReady>::send,
            (&epd, Command::WriteHighRam, buf.data@[0]),
            high,
        ),
    ensures
        step@.effects == window@.effects + cursor@.effects + high@.effects,
        step@.effects == Operation::WriteBaseFramebuffer(buf.window, buf.data@[0]@).effects(
            epd.state().mode(),
            epd.border(),
        ),
{
}

/// Writing a black and white image is setting the window to that of the image, setting the cursor to
/// its top left corner, and sending the image to the low framebuffer and, unless the mode is
/// partial, to the high one. Displaying it is writing it and then updating the screen.
pub proof fn lemma_binary_framebuffer_calls<'a, HW>(
    epd: Epd4In2V2<HW, StateReady>,
    buf: BufferView<'a, 1, 1>,
    display: Step<'a, ()>,
    write: Step<'a, ()>,
    window: Step<'static, ()>,
    cursor: Step<'static, ()>,
    low: Step<'a, ()>,
    high: Step<'a, ()>,
    update: Step<'static, ()>,
)
    requires
        call_ensures(
            <Epd4In2V2::<HW, StateReady> as DisplaySimple<1, 1>>::display_framebuffer,
            (&epd, buf),
            display,
        ),
        call_ensures(
            <Epd4In2V2::<HW, StateReady> as DisplaySimple<1, 1>>::write_framebuffer,
            (&epd, buf),
            write,
        ),
        call_ensures(Epd4In2V2::<HW, StateReady>::set_window, (&epd, buf.window), window),
        call_ensures(Epd4In2V2::<HW, StateReady>::set_cursor, (&epd, buf.window.top_left), cursor),
        call_ensures(
            Epd4In2V2::<HW, StateReady>::send,
            (&epd, Command::WriteLowRam, buf.data@[0]),
            low,
        ),
        call_ensures(
            Epd4In2V2::<HW, StateReady>::send,
            (&epd, Command::WriteHighRam, buf.data@[0]),
            high,
        ),
        call_ensures(Epd4In2V2::<HW, StateReady>::update_display, (&epd,), update),
    ensures
        epd.state().mode() == RefreshMode::Partial ==> write@.effects == window@.effects
            + cursor@.effects + low@.effects,
        epd.state().mode() != RefreshMode::Partial ==> write@.effects == window@.effects
            + cursor@.effects + low@.effects + high@.effects,
        display@.effects == write@.effects + update@.effects,
        write@.effects == Operation::WriteFramebuffer(buf.window, buf.data@[0]@).effects(
            epd.state().mode(),
            epd.border(),
        ),
        display@.effects == Operation::DisplayFramebuffer(buf.window, buf.data@[0]@).effects(
            epd.state().mode(),
            epd.border(),
        ),
{
}

/// Writing a grayscale image is setting the window to that of the image, setting the cursor to its
/// top left corner, and sending the low bits of its pixels to the low framebuffer and the high bits
/// to the high one. Displaying it is writing it and then updating the screen.
pub proof fn lemma_gray_framebuffer_calls<'a, HW>(
    epd: Epd4In2V2<HW, StateReady>,
    buf: BufferView<'a, 1, 2>,
    display: Step<'a, ()>,
    write: Step<'a, ()>,
    window: Step<'static, ()>,
    cursor: Step<'static, ()>,
    low: Step<'a, ()>,
    high: Step<'a, ()>,
    update: Step<'static, ()>,
)
    requires
        call_ensures(
            <Epd4In2V2::<HW, StateReady> as DisplaySimple<1, 2>>::display_framebuffer,
            (&epd, buf),
            display,
        ),
        call_ensures(
            <Epd4In2V2::<HW, StateReady> as DisplaySimple<1, 2>>::write_framebuffer,
            (&epd, buf),
            write,
        ),
        call_ensures(Epd4In2V2::<HW, StateReady>::set_window, (&epd, buf.window), window),
        call_ensures(Epd4In2V2::<HW, StateReady>::set_cursor, (&epd, buf.window.top_left), cursor),
        call_ensures(
            Epd4In2V2::<HW, StateReady>::send,
            (&epd, Command::WriteLowRam, buf.data@[0]),
            low,
        ),
        call_ensures(
            Epd4In2V2::<HW, StateReady>::send,
            (&epd, Command::WriteHighRam, buf.data@[1]),
            high,
        ),
        call_ensures(Epd4In2V2::<HW, StateReady>::update_display, (&epd,), update),
    ensures
        write@.effects == window@.effects + cursor@.effects + low@.effects + high@.effects,
        display@.effects == write@.effects + update@.effects,
        write@.effects == Operation::WriteGrayFramebuffer(
            buf.window,
            buf.data@[0]@,
            buf.data@[1]@,
        ).effects(epd.state().mode(), epd.border()),
        display@.effects == Operation::DisplayGrayFramebuffer(
            buf.window,
            buf.data@[0]@,
            buf.data@[1]@,
        ).effects(epd.state().mode(), epd.border()),
{
}

/// The effect of an action is what the action holds: its command and all of its data, or its level,
/// or its pause. The slice that is handed out for sending is that data.
pub proof fn lemma_effect_is_what_is_sent<'a>(
    command: Command,
    kept: &'a [u8],
    computed: Vec<u8>,
    level: PinState,
    ms: u32,
    payload: Payload<'a>,
    bytes: &[u8],
)
    requires
        call_ensures(Payload::<'a>::as_slice, (&payload,), bytes),
    ensures
        Action::Send(command, Payload::Borrowed(kept))@ == Effect::Send(command, kept@),
        Action::Send(command, Payload::<'a>::Computed(computed))@ == Effect::Send(
            command,
            computed@,
        ),
        Action::<'a>::SetReset(level)@ == Effect::SetReset(level),
        Action::<'a>::DelayMs(ms)@ == Effect::DelayMs(ms),
        payload == Payload::Borrowed(kept) ==> bytes@ == kept@,
        payload == Payload::<'a>::Computed(computed) ==> bytes@ == computed@,
{
}

/// A number is made of its low and its high byte.
pub proof fn lemma_split_call(value: u16, bytes: (u8, u8))
    requires
        call_ensures(split_low_and_high, (value,), bytes),
    ensures
        bytes.0 + 256 * bytes.1 == value,
{
}

/// A position is aligned if its column is a multiple of eight. A window whose columns and rows are
/// in range is aligned if its first column and its width are multiples of eight and it does not end
/// left of the display. No other window is. Width and height are read as signed numbers of 32 bits.
pub proof fn lemma_alignment_calls(
    position: Point,
    position_aligned: bool,
    shape: Rectangle,
    shape_aligned: bool,
)
    requires
        call_ensures(Point::is_byte_aligned, (&position,), position_aligned),
        call_ensures(Rectangle::is_byte_aligned, (&shape,), shape_aligned),
    ensures
        position_aligned <==> position.x as int % 8 == 0,
        ({
            let width = if shape.size.width <= i32::MAX {
                shape.size.width as int
            } else {
                shape.size.width - 0x1_0000_0000
            };
            let height = if shape.size.height <= i32::MAX {
                shape.size.height as int
            } else {
                shape.size.height - 0x1_0000_0000
            };
            shape_aligned <==> {
                &&& shape.top_left.x as int % 8 == 0
                &&& width % 8 == 0
                &&& 0 < shape.top_left.x + width <= i32::MAX
                &&& i32::MIN < shape.top_left.y + height <= i32::MAX
            }
        }),
{
}

/// A new image has the size that it was given and is black: all its bytes are zero. It covers the
/// display from the top left corner on.
pub proof fn lemma_new_image_calls<'a, const L: usize>(
    size: Size,
    image: BinaryBuffer<L>,
    gray: Gray2SplitBuffer<L>,
    view: BufferView<'a, 1, 1>,
    gray_view: BufferView<'a, 1, 2>,
    i: int,
)
    requires
        call_ensures(BinaryBuffer::<L>::new, (size,), image),
        call_ensures(BinaryBuffer::<L>::as_view, (&image,), view),
        call_ensures(Gray2SplitBuffer::<L>::new, (size,), gray),
        call_ensures(Gray2SplitBuffer::<L>::as_view, (&gray,), gray_view),
        0 <= i < L,
    ensures
        image.size() == size,
        view.window.top_left.x == 0,
        view.window.top_left.y == 0,
        view.window.size == size,
        view.data@[0]@.len() == L,
        view.data@[0]@[i] == 0,
        gray_view.window == view.window,
        gray_view.data@[0]@ == view.data@[0]@,
        gray_view.data@[1]@ == view.data@[0]@,
{
}

/// Setting a pixel of an image sets or clears one bit of what the display is sent: in the row of the
/// pixel, the byte of its group of eight columns, the bit of its column counted from the most
/// significant one. Every other pixel keeps its bit, and a pixel outside the image has none.
pub proof fn lemma_set_pixel_call<'a, const L: usize>(
    image: &mut BinaryBuffer<L>,
    point: Point,
    on: bool,
    before: BufferView<'a, 1, 1>,
    after: BufferView<'a, 1, 1>,
    x: int,
    y: int,
)
    requires
        call_ensures(BinaryBuffer::<L>::as_view, (&*old(image),), before),
        call_ensures(BinaryBuffer::<L>::set_pixel, (image, point, on), ()),
        call_ensures(BinaryBuffer::<L>::as_view, (&*final(image),), after),
        0 <= x < before.window.size.width,
        0 <= y < before.window.size.height,
    ensures
        after.window == before.window,
        after.data@[0]@.len() == before.data@[0]@.len(),
        ({
            let index = y * (before.window.size.width as int / 8) + x / 8;
            let bit = 0x80u8 >> ((x % 8) as u8);
            (after.data@[0]@[index] & bit != 0) == if x == point.x && y == point.y {
                on
            } else {
                before.data@[0]@[index] & bit != 0
            }
        }),
        !(0 <= point.x < before.window.size.width && 0 <= point.y < before.window.size.height)
            ==> after.data@[0]@ == before.data@[0]@,
{
    assert(old(image).contains(x, y));
    assert(final(image).is_on(x, y) == if x == point.x && y == point.y {
        on
    } else {
        old(image).is_on(x, y)
    });
}

/// Setting a pixel of a grayscale image puts the lowest bit of its shade in the first of the two
/// framebuffers and the next bit in the second, at the place that the pixel has in a black and white
/// image. Every other pixel keeps its bits, and a pixel outside the image has none.
pub proof fn lemma_set_gray_pixel_call<'a, const L: usize>(
    image: &mut Gray2SplitBuffer<L>,
    point: Point,
    luma: u8,
    before: BufferView<'a, 1, 2>,
    after: BufferView<'a, 1, 2>,
    x: int,
    y: int,
)
    requires
        call_ensures(Gray2SplitBuffer::<L>::as_view, (&*old(image),), before),
        call_ensures(Gray2SplitBuffer::<L>::set_pixel, (image, point, luma), ()),
        call_ensures(Gray2SplitBuffer::<L>::as_view, (&*final(image),), after),
        0 <= x < before.window.size.width,
        0 <= y < before.window.size.height,
    ensures
        after.window == before.window,
        after.data@[0]@.len() == before.data@[0]@.len(),
        after.data@[1]@.len() == before.data@[1]@.len(),
        ({
            let index = y * (before.window.size.width as int / 8) + x / 8;
            let bit = 0x80u8 >> ((x % 8) as u8);
            &&& (after.data@[0]@[index] & bit != 0) == if x == point.x && y == point.y {
                luma % 2 == 1
            } else {
                before.data@[0]@[index] & bit != 0
            }
            &&& (after.data@[1]@[index] & bit != 0) == if x == point.x && y == point.y {
                luma / 2 % 2 == 1
            } else {
                before.data@[1]@[index] & bit != 0
            }
        }),
        !(0 <= point.x < before.window.size.width && 0 <= point.y < before.window.size.height)
            ==> after.data@[0]@ == before.data@[0]@ && after.data@[1]@ == before.data@[1]@,
{
    assert(old(image).low().contains(x, y));
    assert(final(image).luma(x, y) == if x == point.x && y == point.y {
        luma as int % 4
    } else {
        old(image).luma(x, y)
    });
}

} // verus!
