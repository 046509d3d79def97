//! What holds of the display over several operations.
//!
//! The display is modelled by what it was told: the data that was last sent with each command since
//! the display was last reset. A pulse on the reset pin and deep sleep make the display forget all
//! of it. A software reset makes it forget its settings and leaves its two framebuffers alone.
use vstd::prelude::*;

use crate::buffer::display_area;
use crate::command::Command;
use crate::exchange::{Effect, PinState};
use crate::geometry::{column_byte, row_bytes, Point, Rectangle};
use crate::mode::{BorderWaveform, RefreshMode};
use crate::operation::Operation;
use crate::script::{
    base_framebuffer, black_and_white_framebuffer, border, configuration, cursor, deep_sleep,
    gray_framebuffer, initialisation, reset_pulse, update, waveform, whole_window, window,
    LUT_GRAY2,
};

verus! {

/// The part of the display's settings that is the content of its two framebuffers.
pub open spec fn framebuffers(settings: Map<Command, Seq<u8>>) -> Map<Command, Seq<u8>> {
    settings.restrict(set![Command::WriteLowRam, Command::WriteHighRam])
}

/// What one effect makes of the display's settings.
pub open spec fn apply(settings: Map<Command, Seq<u8>>, effect: Effect) -> Map<Command, Seq<u8>> {
    match effect {
        Effect::SetReset(level) => if level == PinState::Low {
            Map::empty()
        } else {
            settings
        },
        Effect::DelayMs(_) => settings,
        Effect::Send(command, data) => if command == Command::DeepSleepMode {
            Map::empty()
        } else if command == Command::SwReset {
            framebuffers(settings)
        } else {
            settings.insert(command, data)
        },
    }
}

/// What the first `count` of some effects, one after the other, make of the display's settings.
pub open spec fn replay_first(
    settings: Map<Command, Seq<u8>>,
    effects: Seq<Effect>,
    count: nat,
) -> Map<Command, Seq<u8>>
    decreases count,
{
    if count == 0 {
        settings
    } else {
        apply(replay_first(settings, effects, (count - 1) as nat), effects[count - 1])
    }
}

/// What some effects, one after the other, make of the display's settings.
pub open spec fn replay(settings: Map<Command, Seq<u8>>, effects: Seq<Effect>) -> Map<
    Command,
    Seq<u8>,
> {
    replay_first(settings, effects, effects.len())
}

/// The settings of a display that is freshly configured for a refresh mode.
pub open spec fn configured(mode: RefreshMode, choice: BorderWaveform) -> Map<Command, Seq<u8>> {
    let control = if mode == RefreshMode::Full || mode == RefreshMode::Fast {
        0x40u8
    } else {
        0x00u8
    };
    let common =
        map![
        Command::DisplayUpdateControl1 => seq![control, 0x00u8],
        Command::SetBorderWaveform => seq![choice.spec_value_for(mode)],
        Command::DataEntryModeSetting => seq![0b11u8],
        Command::SetRamXStartEnd => seq![0x00u8, 0x31],
        Command::SetRamYStartEnd => seq![0x00u8, 0x00, 0x2B, 0x01],
        Command::SetRamX => seq![0x00u8],
        Command::SetRamY => seq![0x00u8, 0x00],
    ];
    match mode {
        RefreshMode::Full | RefreshMode::Partial => common,
        RefreshMode::Fast => common.insert(Command::TemperatureSensorControl, seq![0x6Eu8]).insert(
            Command::DisplayUpdateControl2,
            seq![0x91u8],
        ).insert(Command::MasterActivation, Seq::empty()),
        RefreshMode::Gray2 => common.insert(
            Command::BoosterSoftStart,
            seq![0x8Bu8, 0x9C, 0xA4, 0x0F],
        ).insert(Command::WriteLut, LUT_GRAY2@.subrange(0, 227)).insert(
            Command::SetLutMagic,
            LUT_GRAY2@.subrange(227, 228),
        ).insert(Command::SetGateDrivingVoltage, LUT_GRAY2@.subrange(228, 229)).insert(
            Command::SetSourceDrivingVoltage,
            LUT_GRAY2@.subrange(229, 232),
        ).insert(Command::WriteVcom, LUT_GRAY2@.subrange(232, 233)),
    }
}

/// The commands that say how the display is driven, as opposed to where and what is written and
/// when the screen is updated.
pub open spec fn drives_display(command: Command) -> bool {
    match command {
        Command::DisplayUpdateControl1
        | Command::SetBorderWaveform
        | Command::DataEntryModeSetting
        | Command::TemperatureSensorControl
        | Command::BoosterSoftStart
        | Command::WriteLut
        | Command::SetLutMagic
        | Command::SetGateDrivingVoltage
        | Command::SetSourceDrivingVoltage
        | Command::WriteVcom => true,
        _ => false,
    }
}

/// The display is driven the way that a refresh mode and a border ask for.
pub open spec fn in_step(
    settings: Map<Command, Seq<u8>>,
    mode: RefreshMode,
    choice: BorderWaveform,
) -> bool {
    forall|command: Command| #[trigger]
        drives_display(command) ==> {
            &&& settings.contains_key(command) == configured(mode, choice).contains_key(command)
            &&& settings.contains_key(command) ==> settings[command] == configured(
                mode,
                choice,
            )[command]
        }
}

proof fn lemma_replay_first_concat(
    settings: Map<Command, Seq<u8>>,
    first: Seq<Effect>,
    second: Seq<Effect>,
    count: nat,
)
    requires
        count <= first.len() + second.len(),
    ensures
        replay_first(settings, first + second, count) == if count <= first.len() {
            replay_first(settings, first, count)
        } else {
            replay_first(replay(settings, first), second, (count - first.len()) as nat)
        },
    decreases count,
{
    if count > 0 {
        lemma_replay_first_concat(settings, first, second, (count - 1) as nat);
        if count > first.len() {
            let after = replay(settings, first);
            let rest = (count - first.len()) as nat;
            assert(replay_first(after, second, 0) == after);
            assert(replay_first(after, second, rest) == apply(
                replay_first(after, second, (rest - 1) as nat),
                second[rest - 1],
            ));
        }
    }
}

/// Effects that follow each other can be replayed one part at a time.
pub proof fn lemma_replay_concat(
    settings: Map<Command, Seq<u8>>,
    first: Seq<Effect>,
    second: Seq<Effect>,
)
    ensures
        replay(settings, first + second) == replay(replay(settings, first), second),
{
    lemma_replay_first_concat(settings, first, second, first.len() + second.len());
}

/// Configuring the display leaves it with the same settings whatever it was told before, and leaves
/// both framebuffers as they were.
pub proof fn lemma_configuration_forgets_the_past(
    settings: Map<Command, Seq<u8>>,
    mode: RefreshMode,
    choice: BorderWaveform,
)
    ensures
        replay(settings, configuration(mode, choice)) == framebuffers(settings).union_prefer_right(
            configured(mode, choice),
        ),
        framebuffers(replay(settings, configuration(mode, choice))) == framebuffers(settings),
{
    reveal_with_fuel(replay_first, 10);
    lemma_replay_concat(settings, waveform(mode, choice), whole_window());
    assert(replay(settings, configuration(mode, choice)) =~= framebuffers(
        settings,
    ).union_prefer_right(configured(mode, choice)));
    assert(framebuffers(replay(settings, configuration(mode, choice))) =~= framebuffers(settings));
}

/// A pulse on the reset pin makes the display forget all its settings. It is then out of step with
/// the driver, whichever refresh mode that is in.
pub proof fn lemma_reset_forgets(
    settings: Map<Command, Seq<u8>>,
    mode: RefreshMode,
    choice: BorderWaveform,
)
    ensures
        replay(settings, reset_pulse()) == Map::<Command, Seq<u8>>::empty(),
        !in_step(replay(settings, reset_pulse()), mode, choice),
{
    reveal_with_fuel(replay_first, 7);
    assert(drives_display(Command::SetBorderWaveform));
}

/// Initialising the display, or waking it up, gives it the settings of its refresh mode and its
/// border and nothing else, whatever it was told before.
pub proof fn lemma_init_configures(
    settings: Map<Command, Seq<u8>>,
    mode: RefreshMode,
    choice: BorderWaveform,
)
    ensures
        replay(settings, initialisation(mode, choice)) == configured(mode, choice),
{
    lemma_replay_concat(settings, reset_pulse(), configuration(mode, choice));
    lemma_reset_forgets(settings, mode, choice);
    lemma_configuration_forgets_the_past(replay(settings, reset_pulse()), mode, choice);
    assert(replay(settings, initialisation(mode, choice)) =~= configured(mode, choice));
}

/// A display that is put to sleep and woken up again has the settings of its refresh mode and its
/// border.
pub proof fn lemma_wake_restores_settings(
    settings: Map<Command, Seq<u8>>,
    mode: RefreshMode,
    choice: BorderWaveform,
)
    ensures
        replay(settings, deep_sleep() + initialisation(mode, choice)) == configured(mode, choice),
{
    lemma_replay_concat(settings, deep_sleep(), initialisation(mode, choice));
    lemma_init_configures(replay(settings, deep_sleep()), mode, choice);
}

/// A freshly configured display whose border is changed has the settings that it would have, had it
/// been configured with that border from the start.
pub proof fn lemma_border_change_is_exact(
    mode: RefreshMode,
    old_choice: BorderWaveform,
    new_choice: BorderWaveform,
)
    ensures
        replay(configured(mode, old_choice), seq![border(mode, new_choice)]) == configured(
            mode,
            new_choice,
        ),
{
    reveal_with_fuel(replay_first, 2);
    assert(replay(configured(mode, old_choice), seq![border(mode, new_choice)]) =~= configured(
        mode,
        new_choice,
    ));
}

/// A border that was chosen is used after any change of the refresh mode. Black and white are the
/// same in every mode.
pub proof fn lemma_border_outlives_mode_changes(
    settings: Map<Command, Seq<u8>>,
    mode: RefreshMode,
    choice: BorderWaveform,
)
    ensures
        replay(settings, configuration(mode, choice)).contains_key(Command::SetBorderWaveform),
        replay(settings, configuration(mode, choice))[Command::SetBorderWaveform] == seq![
            match choice {
                BorderWaveform::Default => mode.reference_border(),
                BorderWaveform::Black => 0x50u8,
                BorderWaveform::White => 0x60u8,
            },
        ],
{
    lemma_configuration_forgets_the_past(settings, mode, choice);
}

proof fn lemma_configuration_activates_as_set(mode: RefreshMode, choice: BorderWaveform, i: int)
    requires
        0 <= i < configuration(mode, choice).len(),
        configuration(mode, choice)[i] matches Effect::Send(command, _) && command
            == Command::MasterActivation,
    ensures
        0 < i,
        configuration(mode, choice)[i - 1] matches Effect::Send(command, _) && command
            == Command::DisplayUpdateControl2,
{
}

/// No operation activates the display without telling it right before which update sequence to
/// run.
pub proof fn lemma_activation_follows_its_setting(
    operation: Operation,
    mode: RefreshMode,
    choice: BorderWaveform,
    i: int,
)
    requires
        0 <= i < operation.effects(mode, choice).len(),
        operation.effects(mode, choice)[i] matches Effect::Send(command, _) && command
            == Command::MasterActivation,
    ensures
        0 < i,
        operation.effects(mode, choice)[i - 1] matches Effect::Send(command, _) && command
            == Command::DisplayUpdateControl2,
{
    let pulse = reset_pulse().len() as int;
    let sleep = deep_sleep().len() as int;
    match operation {
        Operation::Init(new_mode) => {
            if pulse <= i {
                lemma_configuration_activates_as_set(new_mode, choice, i - pulse);
            }
        },
        Operation::SleepAndWake => {
            if sleep + pulse <= i {
                lemma_configuration_activates_as_set(mode, choice, i - sleep - pulse);
            }
        },
        Operation::SetRefreshMode(new_mode) => {
            if new_mode != mode {
                lemma_configuration_activates_as_set(new_mode, choice, i);
            }
        },
        _ => {},
    }
}

/// Initialising the display, waking it up and changing its refresh mode bring it in step with the
/// driver, whatever it was told before.
pub proof fn lemma_configuration_is_in_step(
    settings: Map<Command, Seq<u8>>,
    mode: RefreshMode,
    choice: BorderWaveform,
)
    ensures
        in_step(replay(settings, configuration(mode, choice)), mode, choice),
        in_step(replay(settings, initialisation(mode, choice)), mode, choice),
{
    lemma_configuration_forgets_the_past(settings, mode, choice);
    lemma_init_configures(settings, mode, choice);
}

/// A display that is in step with the driver is so after its border was changed.
pub proof fn lemma_border_change_keeps_in_step(
    settings: Map<Command, Seq<u8>>,
    mode: RefreshMode,
    old_choice: BorderWaveform,
    new_choice: BorderWaveform,
)
    requires
        in_step(settings, mode, old_choice),
    ensures
        in_step(replay(settings, seq![border(mode, new_choice)]), mode, new_choice),
{
    reveal_with_fuel(replay_first, 2);
}

/// An effect changes nothing in how the display is driven.
pub open spec fn is_harmless(effect: Effect) -> bool {
    match effect {
        Effect::SetReset(level) => level == PinState::High,
        Effect::DelayMs(_) => true,
        Effect::Send(command, _) => !drives_display(command) && command != Command::SwReset
            && command != Command::DeepSleepMode,
    }
}

proof fn lemma_harmless_effects_keep_in_step(
    settings: Map<Command, Seq<u8>>,
    mode: RefreshMode,
    choice: BorderWaveform,
    effects: Seq<Effect>,
    count: nat,
)
    requires
        in_step(settings, mode, choice),
        count <= effects.len(),
        forall|i: int| 0 <= i < count ==> is_harmless(#[trigger] effects[i]),
    ensures
        in_step(replay_first(settings, effects, count), mode, choice),
    decreases count,
{
    if count > 0 {
        lemma_harmless_effects_keep_in_step(settings, mode, choice, effects, (count - 1) as nat);
        assert(is_harmless(effects[count - 1]));
    }
}

/// A display that is in step with the driver stays so while the window or the cursor is set, an
/// image is written or the screen is updated, even if the operation is cut short by an error.
pub proof fn lemma_drawing_keeps_in_step(
    settings: Map<Command, Seq<u8>>,
    mode: RefreshMode,
    choice: BorderWaveform,
    area: Rectangle,
    position: Point,
    image: Seq<u8>,
    high: Seq<u8>,
    effects: Seq<Effect>,
    done: int,
)
    requires
        in_step(settings, mode, choice),
        ({
            ||| effects == window(area)
            ||| effects == cursor(position)
            ||| effects == update(mode)
            ||| effects == base_framebuffer(area, image)
            ||| effects == black_and_white_framebuffer(mode, area, image)
            ||| effects == black_and_white_framebuffer(mode, area, image) + update(mode)
            ||| effects == gray_framebuffer(area, image, high)
            ||| effects == gray_framebuffer(area, image, high) + update(mode)
        }),
        0 <= done <= effects.len(),
    ensures
        in_step(replay(settings, effects.take(done)), mode, choice),
{
    assert forall|i: int| 0 <= i < done implies is_harmless(#[trigger] effects.take(done)[i]) by {
        assert(is_harmless(effects[i]));
    }
    lemma_harmless_effects_keep_in_step(
        settings,
        mode,
        choice,
        effects.take(done),
        done as nat,
    );
}

/// The refresh mode of the driver after some operations.
pub open spec fn mode_after_all(mode: RefreshMode, operations: Seq<Operation>) -> RefreshMode
    decreases operations.len(),
{
    if operations.len() == 0 {
        mode
    } else {
        operations.last().mode_after(mode_after_all(mode, operations.drop_last()))
    }
}

/// The border of the driver after some operations.
pub open spec fn border_after_all(
    choice: BorderWaveform,
    operations: Seq<Operation>,
) -> BorderWaveform
    decreases operations.len(),
{
    if operations.len() == 0 {
        choice
    } else {
        operations.last().border_after(border_after_all(choice, operations.drop_last()))
    }
}

/// What some operations make of the settings of a display whose driver has the given refresh mode
/// and border.
pub open spec fn replay_operations(
    settings: Map<Command, Seq<u8>>,
    mode: RefreshMode,
    choice: BorderWaveform,
    operations: Seq<Operation>,
) -> Map<Command, Seq<u8>>
    decreases operations.len(),
{
    if operations.len() == 0 {
        settings
    } else {
        let earlier = operations.drop_last();
        replay(
            replay_operations(settings, mode, choice, earlier),
            operations.last().effects(
                mode_after_all(mode, earlier),
                border_after_all(choice, earlier),
            ),
        )
    }
}

proof fn lemma_operation_keeps_in_step(
    settings: Map<Command, Seq<u8>>,
    mode: RefreshMode,
    choice: BorderWaveform,
    operation: Operation,
)
    requires
        in_step(settings, mode, choice),
    ensures
        in_step(
            replay(settings, operation.effects(mode, choice)),
            operation.mode_after(mode),
            operation.border_after(choice),
        ),
{
    let effects = operation.effects(mode, choice);
    match operation {
        Operation::Init(new_mode) => {
            lemma_configuration_is_in_step(settings, new_mode, choice);
        },
        Operation::SleepAndWake => {
            lemma_wake_restores_settings(settings, mode, choice);
        },
        Operation::SetRefreshMode(new_mode) => {
            lemma_configuration_is_in_step(settings, new_mode, choice);
        },
        Operation::SetBorderWaveform(new_choice) => {
            lemma_border_change_keeps_in_step(settings, mode, choice, new_choice);
        },
        _ => {
            assert forall|i: int| 0 <= i < effects.len() implies is_harmless(
                #[trigger] effects[i],
            ) by {}
            lemma_harmless_effects_keep_in_step(settings, mode, choice, effects, effects.len());
        },
    }
}

/// A display that is in step with its driver stays so through any of the listed operations, one
/// after the other, that succeed. It does not stay so when a display that is ready is reset, which
/// [Operation] leaves out along with commands that are sent directly.
pub proof fn lemma_operations_keep_in_step(
    settings: Map<Command, Seq<u8>>,
    mode: RefreshMode,
    choice: BorderWaveform,
    operations: Seq<Operation>,
)
    requires
        in_step(settings, mode, choice),
    ensures
        in_step(
            replay_operations(settings, mode, choice, operations),
            mode_after_all(mode, operations),
            border_after_all(choice, operations),
        ),
    decreases operations.len(),
{
    if operations.len() > 0 {
        let earlier = operations.drop_last();
        lemma_operations_keep_in_step(settings, mode, choice, earlier);
        lemma_operation_keeps_in_step(
            replay_operations(settings, mode, choice, earlier),
            mode_after_all(mode, earlier),
            border_after_all(choice, earlier),
            operations.last(),
        );
    }
}

/// The settings after the window and the cursor were moved to an area.
pub open spec fn addressed(settings: Map<Command, Seq<u8>>, area: Rectangle) -> Map<
    Command,
    Seq<u8>,
> {
    settings.insert(
        Command::SetRamXStartEnd,
        seq![column_byte(area.top_left.x as int), column_byte(area.right())],
    ).insert(
        Command::SetRamYStartEnd,
        row_bytes(area.top_left.y as int) + row_bytes(area.bottom()),
    ).insert(Command::SetRamX, seq![column_byte(area.top_left.x as int)]).insert(
        Command::SetRamY,
        row_bytes(area.top_left.y as int),
    )
}

proof fn lemma_addressed(settings: Map<Command, Seq<u8>>, area: Rectangle)
    ensures
        replay(settings, window(area) + cursor(area.top_left)) == addressed(settings, area),
{
    reveal_with_fuel(replay_first, 3);
    lemma_replay_concat(settings, window(area), cursor(area.top_left));
}

/// Writing a black and white image addresses its window and puts the image in the low framebuffer.
/// In partial mode the high framebuffer stays as it was; in every other mode it gets the same
/// image.
pub proof fn lemma_black_and_white_settings(
    settings: Map<Command, Seq<u8>>,
    mode: RefreshMode,
    area: Rectangle,
    image: Seq<u8>,
)
    ensures
        replay(settings, black_and_white_framebuffer(mode, area, image)) == if mode
            == RefreshMode::Partial {
            addressed(settings, area).insert(Command::WriteLowRam, image)
        } else {
            addressed(settings, area).insert(Command::WriteLowRam, image).insert(
                Command::WriteHighRam,
                image,
            )
        },
{
    reveal_with_fuel(replay_first, 3);
    let address = window(area) + cursor(area.top_left);
    lemma_addressed(settings, area);
    let low = Effect::Send(Command::WriteLowRam, image);
    let high = Effect::Send(Command::WriteHighRam, image);
    lemma_replay_concat(settings, address, seq![low]);
    lemma_replay_concat(settings, address, seq![low, high]);
}

/// Writing a grayscale image addresses its window and puts the low bits of its pixels in the low
/// framebuffer and the high bits in the high one.
pub proof fn lemma_gray_settings(
    settings: Map<Command, Seq<u8>>,
    area: Rectangle,
    low: Seq<u8>,
    high: Seq<u8>,
)
    ensures
        replay(settings, gray_framebuffer(area, low, high)) == addressed(settings, area).insert(
            Command::WriteLowRam,
            low,
        ).insert(Command::WriteHighRam, high),
{
    reveal_with_fuel(replay_first, 3);
    lemma_addressed(settings, area);
    lemma_replay_concat(
        settings,
        window(area) + cursor(area.top_left),
        seq![
            Effect::Send(Command::WriteLowRam, low),
            Effect::Send(Command::WriteHighRam, high),
        ],
    );
}

/// Writing the base addresses its window, puts the image in the high framebuffer and leaves the low
/// one as it was.
pub proof fn lemma_base_settings(
    settings: Map<Command, Seq<u8>>,
    area: Rectangle,
    image: Seq<u8>,
)
    ensures
        replay(settings, base_framebuffer(area, image)) == addressed(settings, area).insert(
            Command::WriteHighRam,
            image,
        ),
{
    reveal_with_fuel(replay_first, 3);
    lemma_addressed(settings, area);
    lemma_replay_concat(
        settings,
        window(area) + cursor(area.top_left),
        seq![Effect::Send(Command::WriteHighRam, image)],
    );
}

/// Both framebuffers hold an image.
pub open spec fn both_hold(settings: Map<Command, Seq<u8>>, image: Seq<u8>) -> bool {
    &&& settings.contains_key(Command::WriteLowRam)
    &&& settings.contains_key(Command::WriteHighRam)
    &&& settings[Command::WriteLowRam] == image
    &&& settings[Command::WriteHighRam] == image
}

/// Once an image was displayed and, in partial mode, written to the base as well, both framebuffers
/// hold the image that is on the screen. They still do when the refresh mode is then changed, to
/// partial or any other: the display is ready for the next partial update.
pub proof fn lemma_base_mirrors_screen(
    settings: Map<Command, Seq<u8>>,
    mode: RefreshMode,
    area: Rectangle,
    image: Seq<u8>,
    new_mode: RefreshMode,
    choice: BorderWaveform,
)
    ensures
        ({
            let shown = black_and_white_framebuffer(mode, area, image) + update(mode);
            let after = replay(
                settings,
                if mode == RefreshMode::Partial {
                    shown + base_framebuffer(area, image)
                } else {
                    shown
                },
            );
            &&& both_hold(after, image)
            &&& both_hold(replay(after, configuration(new_mode, choice)), image)
        }),
{
    reveal_with_fuel(replay_first, 3);
    let shown = black_and_white_framebuffer(mode, area, image) + update(mode);
    lemma_black_and_white_settings(settings, mode, area, image);
    lemma_replay_concat(settings, black_and_white_framebuffer(mode, area, image), update(mode));
    lemma_replay_concat(settings, shown, base_framebuffer(area, image));
    lemma_base_settings(replay(settings, shown), area, image);
    let after = replay(
        settings,
        if mode == RefreshMode::Partial {
            shown + base_framebuffer(area, image)
        } else {
            shown
        },
    );
    assert(both_hold(after, image));
    lemma_configuration_forgets_the_past(after, new_mode, choice);
}

/// Displaying an image is writing it and then updating the screen.
pub proof fn lemma_displaying_is_writing_and_updating(
    mode: RefreshMode,
    choice: BorderWaveform,
    area: Rectangle,
    low: Seq<u8>,
    high: Seq<u8>,
)
    ensures
        Operation::DisplayFramebuffer(area, low).effects(mode, choice)
            == Operation::WriteFramebuffer(area, low).effects(mode, choice)
            + Operation::UpdateDisplay.effects(mode, choice),
        Operation::DisplayGrayFramebuffer(area, low, high).effects(mode, choice)
            == Operation::WriteGrayFramebuffer(area, low, high).effects(mode, choice)
            + Operation::UpdateDisplay.effects(mode, choice),
{
}

/// The window and the cursor that every configuration sets are those of the whole display.
pub proof fn lemma_whole_window_is_the_display()
    ensures
        whole_window() == seq![Effect::Send(Command::DataEntryModeSetting, seq![0b11u8])] + window(
            display_area(),
        ) + cursor(display_area().top_left),
{
    assert(whole_window() =~~= seq![Effect::Send(Command::DataEntryModeSetting, seq![0b11u8])]
        + window(display_area()) + cursor(display_area().top_left));
}

/// A window that is aligned to whole groups of eight columns, and that the controller can address,
/// is sent without loss: its corners can be computed back from the bytes.
pub proof fn lemma_aligned_window_is_exact(area: Rectangle)
    requires
        area.top_left.x as int % 8 == 0,
        area.right() % 8 == 7,
        0 <= area.top_left.x <= area.right() < 2048,
        0 <= area.top_left.y <= area.bottom() < 65536,
    ensures
        8 * column_byte(area.top_left.x as int) == area.top_left.x,
        8 * column_byte(area.right()) + 7 == area.right(),
        row_bytes(area.top_left.y as int)[0] + 256 * row_bytes(area.top_left.y as int)[1]
            == area.top_left.y,
        row_bytes(area.bottom())[0] + 256 * row_bytes(area.bottom())[1] == area.bottom(),
{
}

/// Windows whose columns start in the same group of eight and end in the same group of eight, and
/// whose rows are the same, are one window to the display.
pub proof fn lemma_window_takes_whole_groups(a: Rectangle, b: Rectangle)
    requires
        a.top_left.x as int / 8 == b.top_left.x as int / 8,
        a.right() / 8 == b.right() / 8,
        a.top_left.y == b.top_left.y,
        a.bottom() == b.bottom(),
    ensures
        window(a) == window(b),
{
}

/// The commands of the Gray2 configuration send the waveform table whole, in order.
pub proof fn lemma_gray2_table_is_sent_whole(choice: BorderWaveform)
    ensures
        ({
            let sent = waveform(RefreshMode::Gray2, choice);
            sent[4]->Send_1 + sent[5]->Send_1 + sent[6]->Send_1 + sent[7]->Send_1 + sent[8]->Send_1
                == LUT_GRAY2@
        }),
{
    let sent = waveform(RefreshMode::Gray2, choice);
    assert(sent[4]->Send_1 + sent[5]->Send_1 + sent[6]->Send_1 + sent[7]->Send_1 + sent[8]->Send_1
        =~= LUT_GRAY2@);
}

} // verus!
