//! What each operation on a display that is ready achieves.
//!
//! The laws read the display's registers as its controller does: a column is a group of eight, a
//! row is two bytes, and the image is written where the window and the cursor were last put.
use vstd::prelude::*;

use crate::command::Command;
use crate::exchange::{Effect, PinState};
use crate::geometry::{Point, Rectangle};
use crate::laws::{
    configured, framebuffers, lemma_base_settings, lemma_black_and_white_settings,
    lemma_configuration_forgets_the_past, lemma_gray_settings, lemma_replay_concat, replay,
    replay_first,
};
use crate::mode::{BorderWaveform, RefreshMode};
use crate::operation::Operation;
use crate::script::LUT_GRAY2;

verus! {

/// Setting the cursor sends one column and one row. The column is the group of eight that the
/// position lies in and the row is the position's own, each as far as the controller can count.
pub proof fn lemma_cursor_is_exact(position: Point, mode: RefreshMode, choice: BorderWaveform)
    ensures
        ({
            let sent = Operation::SetCursor(position).effects(mode, choice);
            let column = sent[0]->Send_1;
            let row = sent[1]->Send_1;
            &&& sent.len() == 2
            &&& sent[0] is Send && sent[0]->Send_0 == Command::SetRamX
            &&& sent[1] is Send && sent[1]->Send_0 == Command::SetRamY
            &&& column.len() == 1 && row.len() == 2
            &&& 8 * column[0] <= position.x as int % 2048 < 8 * column[0] + 8
            &&& row[0] + 256 * row[1] == position.y as int % 65536
            &&& 0 <= position.x < 2048 && position.x % 8 == 0 ==> 8 * column[0] == position.x
            &&& 0 <= position.y < 65536 ==> row[0] + 256 * row[1] == position.y
        }),
{
}

/// Setting the window sends its first and its last column and its first and its last row, each as
/// far as the controller can count. Columns are sent as groups of eight.
pub proof fn lemma_window_is_exact(area: Rectangle, mode: RefreshMode, choice: BorderWaveform)
    ensures
        ({
            let sent = Operation::SetWindow(area).effects(mode, choice);
            let columns = sent[0]->Send_1;
            let rows = sent[1]->Send_1;
            let left = area.top_left.x as int;
            let right = area.top_left.x + area.size.width - 1;
            let top = area.top_left.y as int;
            let bottom = area.top_left.y + area.size.height - 1;
            &&& sent.len() == 2
            &&& sent[0] is Send && sent[0]->Send_0 == Command::SetRamXStartEnd
            &&& sent[1] is Send && sent[1]->Send_0 == Command::SetRamYStartEnd
            &&& columns.len() == 2 && rows.len() == 4
            &&& 8 * columns[0] <= left % 2048 < 8 * columns[0] + 8
            &&& 8 * columns[1] <= right % 2048 < 8 * columns[1] + 8
            &&& rows[0] + 256 * rows[1] == top % 65536
            &&& rows[2] + 256 * rows[3] == bottom % 65536
            &&& 0 <= left < 2048 && left % 8 == 0 ==> 8 * columns[0] == left
            &&& 0 <= right < 2048 && right % 8 == 7 ==> 8 * columns[1] + 7 == right
            &&& 0 <= top < 65536 ==> rows[0] + 256 * rows[1] == top
            &&& 0 <= bottom < 65536 ==> rows[2] + 256 * rows[3] == bottom
        }),
{
}

/// Changing the border sends one byte: the level of a fixed border, or else the reference value of
/// the refresh mode.
pub proof fn lemma_border_is_exact(
    mode: RefreshMode,
    old_choice: BorderWaveform,
    new_choice: BorderWaveform,
)
    ensures
        ({
            let sent = Operation::SetBorderWaveform(new_choice).effects(mode, old_choice);
            let level = sent[0]->Send_1;
            &&& sent.len() == 1
            &&& sent[0] is Send && sent[0]->Send_0 == Command::SetBorderWaveform
            &&& level.len() == 1
            &&& new_choice == BorderWaveform::Black ==> level[0] == 0x50
            &&& new_choice == BorderWaveform::White ==> level[0] == 0x60
            &&& new_choice == BorderWaveform::Default ==> level[0] == match mode {
                RefreshMode::Full | RefreshMode::Fast => 0x05u8,
                RefreshMode::Partial => 0x80u8,
                RefreshMode::Gray2 => 0x03u8,
            }
        }),
{
}

/// An update of the screen, alone or after an image was written, ends by activating the display,
/// which it does nowhere else. At that moment the update sequence is that of the refresh mode.
pub proof fn lemma_update_activates(
    operation: Operation,
    settings: Map<Command, Seq<u8>>,
    mode: RefreshMode,
    choice: BorderWaveform,
)
    requires
        operation is UpdateDisplay || operation is DisplayFramebuffer
            || operation is DisplayGrayFramebuffer,
    ensures
        ({
            let sent = operation.effects(mode, choice);
            let before = replay(settings, sent.drop_last());
            &&& sent.len() > 0
            &&& sent.last() == Effect::Send(Command::MasterActivation, Seq::empty())
            &&& before.contains_key(Command::DisplayUpdateControl2)
            &&& before[Command::DisplayUpdateControl2] == seq![
                match mode {
                    RefreshMode::Fast => 0xC7u8,
                    RefreshMode::Full => 0xF7u8,
                    RefreshMode::Partial => 0xFFu8,
                    RefreshMode::Gray2 => 0xCFu8,
                },
            ]
            &&& forall|i: int|
                0 <= i < sent.len() - 1 ==> !((#[trigger] sent[i]) matches Effect::Send(command, _)
                    && command == Command::MasterActivation)
        }),
{
    let sent = operation.effects(mode, choice);
    let start = sent.drop_last().drop_last();
    assert(sent.drop_last() =~= start + seq![sent[sent.len() - 2]]);
    lemma_replay_concat(settings, start, seq![sent[sent.len() - 2]]);
    reveal_with_fuel(replay_first, 2);
}

/// Updating the screen changes no setting but the update sequence, and writes nothing.
pub proof fn lemma_update_leaves_the_rest(
    settings: Map<Command, Seq<u8>>,
    mode: RefreshMode,
    choice: BorderWaveform,
    command: Command,
)
    requires
        command != Command::DisplayUpdateControl2,
        command != Command::MasterActivation,
    ensures
        ({
            let sent = Operation::UpdateDisplay.effects(mode, choice);
            let after = replay(settings, sent);
            &&& sent.len() == 2
            &&& after.contains_key(command) == settings.contains_key(command)
            &&& after.contains_key(command) ==> after[command] == settings[command]
        }),
{
    reveal_with_fuel(replay_first, 3);
}

/// Writing an image is setting the window to the image's own, setting the cursor to its top left
/// corner, and sending the image. A black and white image goes to both framebuffers, except in
/// partial mode, where it goes to the low one; the base goes to the high one; the two halves of a
/// grayscale image go to one framebuffer each.
pub proof fn lemma_writing_goes_through_the_window(
    area: Rectangle,
    low: Seq<u8>,
    high: Seq<u8>,
    mode: RefreshMode,
    choice: BorderWaveform,
)
    ensures
        ({
            let address = Operation::SetWindow(area).effects(mode, choice) + Operation::SetCursor(
                area.top_left,
            ).effects(mode, choice);
            &&& Operation::WriteBaseFramebuffer(area, high).effects(mode, choice) == address + seq![
                Effect::Send(Command::WriteHighRam, high),
            ]
            &&& mode == RefreshMode::Partial ==> Operation::WriteFramebuffer(area, low).effects(
                mode,
                choice,
            ) == address + seq![Effect::Send(Command::WriteLowRam, low)]
            &&& mode != RefreshMode::Partial ==> Operation::WriteFramebuffer(area, low).effects(
                mode,
                choice,
            ) == address + seq![
                Effect::Send(Command::WriteLowRam, low),
                Effect::Send(Command::WriteHighRam, low),
            ]
            &&& Operation::WriteGrayFramebuffer(area, low, high).effects(mode, choice) == address
                + seq![
                Effect::Send(Command::WriteLowRam, low),
                Effect::Send(Command::WriteHighRam, high),
            ]
        }),
{
}

/// Whenever image data is sent, the window and the cursor are those of the image: the data lands in
/// the columns and the rows of its area, from the top left corner on.
pub proof fn lemma_image_lands_in_its_area(
    operation: Operation,
    area: Rectangle,
    low: Seq<u8>,
    high: Seq<u8>,
    settings: Map<Command, Seq<u8>>,
    mode: RefreshMode,
    choice: BorderWaveform,
    i: int,
)
    requires
        ({
            ||| operation == Operation::WriteBaseFramebuffer(area, high)
            ||| operation == Operation::WriteFramebuffer(area, low)
            ||| operation == Operation::DisplayFramebuffer(area, low)
            ||| operation == Operation::WriteGrayFramebuffer(area, low, high)
            ||| operation == Operation::DisplayGrayFramebuffer(area, low, high)
        }),
        0 <= i < operation.effects(mode, choice).len(),
        operation.effects(mode, choice)[i] matches Effect::Send(command, _) && (command
            == Command::WriteLowRam || command == Command::WriteHighRam),
    ensures
        ({
            let now = replay(settings, operation.effects(mode, choice).take(i));
            let columns = now[Command::SetRamXStartEnd];
            let rows = now[Command::SetRamYStartEnd];
            let x = now[Command::SetRamX];
            let y = now[Command::SetRamY];
            let left = area.top_left.x as int;
            let right = area.top_left.x + area.size.width - 1;
            let top = area.top_left.y as int;
            let bottom = area.top_left.y + area.size.height - 1;
            &&& now.contains_key(Command::SetRamXStartEnd) && columns.len() == 2
            &&& now.contains_key(Command::SetRamYStartEnd) && rows.len() == 4
            &&& now.contains_key(Command::SetRamX) && x.len() == 1
            &&& now.contains_key(Command::SetRamY) && y.len() == 2
            &&& 8 * columns[0] <= left % 2048 < 8 * columns[0] + 8
            &&& 8 * columns[1] <= right % 2048 < 8 * columns[1] + 8
            &&& rows[0] + 256 * rows[1] == top % 65536
            &&& rows[2] + 256 * rows[3] == bottom % 65536
            &&& x[0] == columns[0]
            &&& y[0] == rows[0] && y[1] == rows[1]
        }),
{
    let sent = operation.effects(mode, choice);
    let address = sent.take(4);
    lemma_window_is_exact(area, mode, choice);
    lemma_cursor_is_exact(area.top_left, mode, choice);
    lemma_writing_goes_through_the_window(area, low, high, mode, choice);
    assert(replay(settings, address) == settings.insert(sent[0]->Send_0, sent[0]->Send_1).insert(
        sent[1]->Send_0,
        sent[1]->Send_1,
    ).insert(sent[2]->Send_0, sent[2]->Send_1).insert(sent[3]->Send_0, sent[3]->Send_1)) by {
        reveal_with_fuel(replay_first, 5);
    }
    if i == 5 {
        assert(sent.take(5) =~= address + seq![sent[4]]);
        lemma_replay_concat(settings, address, seq![sent[4]]);
        reveal_with_fuel(replay_first, 2);
    }
}

/// After an image was written, or displayed, its area is addressed, the framebuffers that it is
/// meant for hold it, and the other framebuffer is as it was. A partial update leaves the base
/// alone, and writing the base leaves the image to be shown alone.
pub proof fn lemma_image_is_in_memory(
    operation: Operation,
    area: Rectangle,
    low: Seq<u8>,
    high: Seq<u8>,
    settings: Map<Command, Seq<u8>>,
    mode: RefreshMode,
    choice: BorderWaveform,
)
    requires
        ({
            ||| operation == Operation::WriteBaseFramebuffer(area, high)
            ||| operation == Operation::WriteFramebuffer(area, low)
            ||| operation == Operation::DisplayFramebuffer(area, low)
            ||| operation == Operation::WriteGrayFramebuffer(area, low, high)
            ||| operation == Operation::DisplayGrayFramebuffer(area, low, high)
        }),
    ensures
        ({
            let after = replay(settings, operation.effects(mode, choice));
            let left = area.top_left.x as int;
            let right = area.top_left.x + area.size.width - 1;
            let top = area.top_left.y as int;
            let bottom = area.top_left.y + area.size.height - 1;
            &&& after.contains_pair(
                Command::SetRamXStartEnd,
                seq![(left / 8 % 256) as u8, (right / 8 % 256) as u8],
            )
            &&& after.contains_pair(
                Command::SetRamYStartEnd,
                seq![
                    (top % 256) as u8,
                    (top / 256 % 256) as u8,
                    (bottom % 256) as u8,
                    (bottom / 256 % 256) as u8,
                ],
            )
            &&& after.contains_pair(Command::SetRamX, seq![(left / 8 % 256) as u8])
            &&& after.contains_pair(
                Command::SetRamY,
                seq![(top % 256) as u8, (top / 256 % 256) as u8],
            )
            &&& match operation {
                Operation::WriteBaseFramebuffer(_, _) => {
                    &&& after.contains_pair(Command::WriteHighRam, high)
                    &&& after.contains_key(Command::WriteLowRam) == settings.contains_key(
                        Command::WriteLowRam,
                    )
                    &&& after[Command::WriteLowRam] == settings[Command::WriteLowRam]
                },
                Operation::WriteFramebuffer(_, _) | Operation::DisplayFramebuffer(_, _) => {
                    &&& after.contains_pair(Command::WriteLowRam, low)
                    &&& mode != RefreshMode::Partial ==> after.contains_pair(
                        Command::WriteHighRam,
                        low,
                    )
                    &&& mode == RefreshMode::Partial ==> after.contains_key(Command::WriteHighRam)
                        == settings.contains_key(Command::WriteHighRam)
                        && after[Command::WriteHighRam] == settings[Command::WriteHighRam]
                },
                _ => {
                    &&& after.contains_pair(Command::WriteLowRam, low)
                    &&& after.contains_pair(Command::WriteHighRam, high)
                },
            }
        }),
{
    let sent = operation.effects(mode, choice);
    let after = replay(settings, sent);
    let written = match operation {
        Operation::WriteBaseFramebuffer(_, _) => {
            lemma_base_settings(settings, area, high);
            sent
        },
        Operation::WriteFramebuffer(_, _) | Operation::DisplayFramebuffer(_, _) => {
            lemma_black_and_white_settings(settings, mode, area, low);
            Operation::WriteFramebuffer(area, low).effects(mode, choice)
        },
        _ => {
            lemma_gray_settings(settings, area, low, high);
            Operation::WriteGrayFramebuffer(area, low, high).effects(mode, choice)
        },
    };
    let update = Operation::UpdateDisplay.effects(mode, choice);
    if operation is DisplayFramebuffer || operation is DisplayGrayFramebuffer {
        lemma_replay_concat(settings, written, update);
    }
    reveal_with_fuel(replay_first, 3);
    let top = area.top_left.y as int;
    let bottom = area.top_left.y + area.size.height - 1;
    assert(after[Command::SetRamYStartEnd] =~= seq![
        (top % 256) as u8,
        (top / 256 % 256) as u8,
        (bottom % 256) as u8,
        (bottom / 256 % 256) as u8,
    ]);
}

/// The image is in the display's memory, and the display is addressed as its area says, by the time
/// the screen is updated: displaying an image is writing it and then updating the screen, and the
/// update writes nothing.
pub proof fn lemma_displayed_image_was_written(
    area: Rectangle,
    low: Seq<u8>,
    high: Seq<u8>,
    settings: Map<Command, Seq<u8>>,
    mode: RefreshMode,
    choice: BorderWaveform,
)
    ensures
        ({
            let update = Operation::UpdateDisplay.effects(mode, choice);
            let written = Operation::WriteFramebuffer(area, low).effects(mode, choice);
            let gray = Operation::WriteGrayFramebuffer(area, low, high).effects(mode, choice);
            &&& Operation::DisplayFramebuffer(area, low).effects(mode, choice) == written + update
            &&& Operation::DisplayGrayFramebuffer(area, low, high).effects(mode, choice) == gray
                + update
            &&& framebuffers(replay(settings, written + update)) == framebuffers(
                replay(settings, written),
            )
            &&& framebuffers(replay(settings, gray + update)) == framebuffers(
                replay(settings, gray),
            )
        }),
{
    let update = Operation::UpdateDisplay.effects(mode, choice);
    let written = Operation::WriteFramebuffer(area, low).effects(mode, choice);
    let gray = Operation::WriteGrayFramebuffer(area, low, high).effects(mode, choice);
    lemma_replay_concat(settings, written, update);
    lemma_replay_concat(settings, gray, update);
    reveal_with_fuel(replay_first, 3);
    assert(framebuffers(replay(replay(settings, written), update)) =~= framebuffers(
        replay(settings, written),
    ));
    assert(framebuffers(replay(replay(settings, gray), update)) =~= framebuffers(
        replay(settings, gray),
    ));
}

/// Addressing the display, writing an image and updating the screen take commands alone, and leave
/// every setting alone that is not about the address, the framebuffers or the update sequence, even
/// if the operation is cut short by an error.
pub proof fn lemma_drawing_leaves_the_rest(
    operation: Operation,
    settings: Map<Command, Seq<u8>>,
    mode: RefreshMode,
    choice: BorderWaveform,
    command: Command,
    done: int,
)
    requires
        0 <= done <= operation.effects(mode, choice).len(),
        !(operation is Init),
        !(operation is SleepAndWake),
        !(operation is SetRefreshMode),
        !(operation is SetBorderWaveform),
        match command {
            Command::SetRamXStartEnd
            | Command::SetRamYStartEnd
            | Command::SetRamX
            | Command::SetRamY
            | Command::WriteLowRam
            | Command::WriteHighRam
            | Command::DisplayUpdateControl2
            | Command::MasterActivation => false,
            _ => true,
        },
    ensures
        ({
            let sent = operation.effects(mode, choice);
            let after = replay(settings, sent.take(done));
            &&& forall|i: int| 0 <= i < sent.len() ==> (#[trigger] sent[i]) is Send
            &&& after.contains_key(command) == settings.contains_key(command)
            &&& after[command] == settings[command]
        }),
{
    let sent = operation.effects(mode, choice);
    assert forall|i: int| 0 <= i < sent.len() implies {
        &&& (#[trigger] sent[i]) is Send
        &&& sent[i]->Send_0 != command
        &&& sent[i]->Send_0 != Command::SwReset
        &&& sent[i]->Send_0 != Command::DeepSleepMode
    } by {}
    lemma_other_commands_leave_setting(settings, sent.take(done), command, done as nat);
}

proof fn lemma_other_commands_leave_setting(
    settings: Map<Command, Seq<u8>>,
    sent: Seq<Effect>,
    command: Command,
    count: nat,
)
    requires
        count <= sent.len(),
        forall|i: int|
            0 <= i < count ==> {
                &&& (#[trigger] sent[i]) is Send
                &&& sent[i]->Send_0 != command
                &&& sent[i]->Send_0 != Command::SwReset
                &&& sent[i]->Send_0 != Command::DeepSleepMode
            },
    ensures
        replay_first(settings, sent, count).contains_key(command) == settings.contains_key(command),
        replay_first(settings, sent, count)[command] == settings[command],
    decreases count,
{
    if count > 0 {
        lemma_other_commands_leave_setting(settings, sent, command, (count - 1) as nat);
        assert(sent[count - 1] is Send);
    }
}

/// A display that has shown an image, and in partial mode has had it written to the base as well, is
/// ready for a partial update: both framebuffers hold what is on the screen. That is still so after
/// its refresh mode was changed, to partial or any other.
pub proof fn lemma_shown_image_is_the_base(
    settings: Map<Command, Seq<u8>>,
    mode: RefreshMode,
    new_mode: RefreshMode,
    choice: BorderWaveform,
    area: Rectangle,
    image: Seq<u8>,
)
    ensures
        ({
            let shown = replay(
                settings,
                Operation::DisplayFramebuffer(area, image).effects(mode, choice),
            );
            let ready = if mode == RefreshMode::Partial {
                replay(shown, Operation::WriteBaseFramebuffer(area, image).effects(mode, choice))
            } else {
                shown
            };
            let changed = replay(ready, Operation::SetRefreshMode(new_mode).effects(mode, choice));
            &&& ready.contains_pair(Command::WriteLowRam, image)
            &&& ready.contains_pair(Command::WriteHighRam, image)
            &&& changed.contains_pair(Command::WriteLowRam, image)
            &&& changed.contains_pair(Command::WriteHighRam, image)
        }),
{
    let display = Operation::DisplayFramebuffer(area, image);
    let base = Operation::WriteBaseFramebuffer(area, image);
    let shown = replay(settings, display.effects(mode, choice));
    lemma_image_is_in_memory(display, area, image, image, settings, mode, choice);
    lemma_image_is_in_memory(base, area, image, image, shown, mode, choice);
    let ready = if mode == RefreshMode::Partial {
        replay(shown, base.effects(mode, choice))
    } else {
        shown
    };
    if mode != new_mode {
        lemma_mode_change_configures(ready, mode, new_mode, choice, Command::WriteLowRam);
        lemma_mode_change_configures(ready, mode, new_mode, choice, Command::WriteHighRam);
    }
}

/// A change to the refresh mode that the display is in sends nothing.
pub proof fn lemma_same_mode_sends_nothing(mode: RefreshMode, choice: BorderWaveform)
    ensures
        Operation::SetRefreshMode(mode).effects(mode, choice).len() == 0,
{
}

/// A change of the refresh mode leaves the display configured for the new mode and nothing else,
/// whatever mode it was in and whatever it was told before. Its framebuffers are kept. A fast
/// refresh has its waveform selected by temperature and loaded; a grayscale one has its own
/// waveform and the settings that belong to it.
pub proof fn lemma_mode_change_configures(
    settings: Map<Command, Seq<u8>>,
    mode: RefreshMode,
    new_mode: RefreshMode,
    choice: BorderWaveform,
    command: Command,
)
    requires
        mode != new_mode,
    ensures
        ({
            let after = replay(
                settings,
                Operation::SetRefreshMode(new_mode).effects(mode, choice),
            );
            let data = after[command];
            &&& after == framebuffers(settings).union_prefer_right(configured(new_mode, choice))
            &&& match command {
                Command::WriteLowRam | Command::WriteHighRam => {
                    &&& after.contains_key(command) == settings.contains_key(command)
                    &&& after.contains_key(command) ==> data == settings[command]
                },
                Command::DisplayUpdateControl1 => after.contains_key(command) && data == seq![
                    if new_mode == RefreshMode::Full || new_mode == RefreshMode::Fast {
                        0x40u8
                    } else {
                        0x00u8
                    },
                    0x00u8,
                ],
                Command::SetBorderWaveform => after.contains_key(command) && data == seq![
                    match choice {
                        BorderWaveform::Black => 0x50u8,
                        BorderWaveform::White => 0x60u8,
                        BorderWaveform::Default => match new_mode {
                            RefreshMode::Full | RefreshMode::Fast => 0x05u8,
                            RefreshMode::Partial => 0x80u8,
                            RefreshMode::Gray2 => 0x03u8,
                        },
                    },
                ],
                Command::DataEntryModeSetting => after.contains_key(command) && data == seq![3u8],
                // The whole display: columns 0 to 399, rows 0 to 299.
                Command::SetRamXStartEnd => after.contains_key(command) && data.len() == 2
                    && 8 * data[0] == 0 && 8 * data[1] + 7 == 399,
                Command::SetRamYStartEnd => after.contains_key(command) && data.len() == 4
                    && data[0] + 256 * data[1] == 0 && data[2] + 256 * data[3] == 299,
                Command::SetRamX => after.contains_key(command) && data == seq![0u8],
                Command::SetRamY => after.contains_key(command) && data == seq![0u8, 0u8],
                Command::TemperatureSensorControl => {
                    &&& after.contains_key(command) <==> new_mode == RefreshMode::Fast
                    &&& new_mode == RefreshMode::Fast ==> data == seq![0x6Eu8]
                },
                Command::DisplayUpdateControl2 => {
                    &&& after.contains_key(command) <==> new_mode == RefreshMode::Fast
                    &&& new_mode == RefreshMode::Fast ==> data == seq![0x91u8]
                },
                Command::MasterActivation => {
                    &&& after.contains_key(command) <==> new_mode == RefreshMode::Fast
                    &&& new_mode == RefreshMode::Fast ==> data.len() == 0
                },
                Command::BoosterSoftStart => {
                    &&& after.contains_key(command) <==> new_mode == RefreshMode::Gray2
                    &&& new_mode == RefreshMode::Gray2 ==> data == seq![0x8Bu8, 0x9C, 0xA4, 0x0F]
                },
                Command::WriteLut => {
                    &&& after.contains_key(command) <==> new_mode == RefreshMode::Gray2
                    &&& new_mode == RefreshMode::Gray2 ==> data.len() == 227 && forall|i: int|
                        0 <= i < 227 ==> #[trigger] data[i] == LUT_GRAY2@[i]
                },
                Command::SetLutMagic => {
                    &&& after.contains_key(command) <==> new_mode == RefreshMode::Gray2
                    &&& new_mode == RefreshMode::Gray2 ==> data == seq![0x07u8]
                },
                Command::SetGateDrivingVoltage => {
                    &&& after.contains_key(command) <==> new_mode == RefreshMode::Gray2
                    &&& new_mode == RefreshMode::Gray2 ==> data == seq![0x17u8]
                },
                Command::SetSourceDrivingVoltage => {
                    &&& after.contains_key(command) <==> new_mode == RefreshMode::Gray2
                    &&& new_mode == RefreshMode::Gray2 ==> data == seq![0x41u8, 0xA8, 0x32]
                },
                Command::WriteVcom => {
                    &&& after.contains_key(command) <==> new_mode == RefreshMode::Gray2
                    &&& new_mode == RefreshMode::Gray2 ==> data == seq![0x30u8]
                },
                _ => !after.contains_key(command),
            }
        }),
{
    lemma_configuration_forgets_the_past(settings, new_mode, choice);
    let after = replay(settings, Operation::SetRefreshMode(new_mode).effects(mode, choice));
    let data = after[command];
    if new_mode == RefreshMode::Gray2 {
        match command {
            Command::SetLutMagic => assert(data =~= seq![0x07u8]),
            Command::SetGateDrivingVoltage => assert(data =~= seq![0x17u8]),
            Command::SetSourceDrivingVoltage => assert(data =~= seq![0x41u8, 0xA8, 0x32]),
            Command::WriteVcom => assert(data =~= seq![0x30u8]),
            _ => {},
        }
    }
}

/// A change of the refresh mode starts with a software reset, takes commands alone and sends none
/// of them twice. When it activates the display, which it does for a fast refresh, everything that
/// selects the fast waveform is in place.
pub proof fn lemma_mode_change_is_orderly(
    settings: Map<Command, Seq<u8>>,
    mode: RefreshMode,
    new_mode: RefreshMode,
    choice: BorderWaveform,
    i: int,
    j: int,
)
    requires
        mode != new_mode,
        0 <= i < j < Operation::SetRefreshMode(new_mode).effects(mode, choice).len(),
    ensures
        ({
            let sent = Operation::SetRefreshMode(new_mode).effects(mode, choice);
            let now = replay(settings, sent.take(j));
            &&& sent[0] == Effect::Send(Command::SwReset, Seq::empty())
            &&& sent[i] is Send && sent[j] is Send && sent[i]->Send_0 != sent[j]->Send_0
            &&& sent[j]->Send_0 == Command::MasterActivation ==> {
                &&& new_mode == RefreshMode::Fast
                &&& sent[j]->Send_1.len() == 0
                &&& now.contains_pair(Command::TemperatureSensorControl, seq![0x6Eu8])
                &&& now.contains_pair(Command::DisplayUpdateControl2, seq![0x91u8])
                &&& now.contains_pair(Command::DisplayUpdateControl1, seq![0x40u8, 0x00])
                &&& now.contains_key(Command::SetBorderWaveform)
            }
        }),
{
    let sent = Operation::SetRefreshMode(new_mode).effects(mode, choice);
    if sent[j] is Send && sent[j]->Send_0 == Command::MasterActivation {
        assert(j == 5);
        reveal_with_fuel(replay_first, 6);
    }
}

/// Apart from the border's own byte, a change to a refresh mode sends the same commands whatever the
/// mode before and the border are.
pub proof fn lemma_mode_change_does_not_depend_on_the_past(
    first_mode: RefreshMode,
    second_mode: RefreshMode,
    new_mode: RefreshMode,
    first_choice: BorderWaveform,
    second_choice: BorderWaveform,
    i: int,
)
    requires
        first_mode != new_mode,
        second_mode != new_mode,
        0 <= i < Operation::SetRefreshMode(new_mode).effects(first_mode, first_choice).len(),
    ensures
        ({
            let first = Operation::SetRefreshMode(new_mode).effects(first_mode, first_choice);
            let second = Operation::SetRefreshMode(new_mode).effects(second_mode, second_choice);
            &&& first.len() == second.len()
            &&& first_choice == second_choice ==> first == second
            &&& first[i] == second[i] || first[i]->Send_0 == Command::SetBorderWaveform
                && second[i]->Send_0 == Command::SetBorderWaveform
        }),
{
}

/// Initialising the display is one pulse on its reset pin and then a change to the refresh mode, as
/// if from any other mode. Waking a display up from deep sleep is initialising it in its own mode.
pub proof fn lemma_init_is_reset_and_mode_change(
    old_mode: RefreshMode,
    other_mode: RefreshMode,
    mode: RefreshMode,
    choice: BorderWaveform,
)
    requires
        other_mode != mode,
    ensures
        Operation::Init(mode).effects(old_mode, choice) == seq![
            Effect::SetReset(PinState::High),
            Effect::DelayMs(100),
            Effect::SetReset(PinState::Low),
            Effect::DelayMs(2),
            Effect::SetReset(PinState::High),
            Effect::DelayMs(100),
        ] + Operation::SetRefreshMode(mode).effects(other_mode, choice),
        Operation::SleepAndWake.effects(mode, choice) == seq![
            Effect::Send(Command::DeepSleepMode, seq![0x01u8]),
        ] + Operation::Init(mode).effects(old_mode, choice),
{
}

/// The Gray2 waveform is five tables of 42 bytes, one after the other. The lower six bits of an
/// entry are a duration or a count, the same in every table. The upper two are a level: the tables
/// differ in these alone, and the first has none. What follows the tables is all but empty.
pub proof fn lemma_gray2_tables_share_their_timing(table: u8, entry: u8, rest: int)
    requires
        0 <= table < 5,
        0 <= entry < 42,
        210 <= rest < 227,
    ensures
        LUT_GRAY2@[42 * table + entry] as int % 64 == match entry {
            0 | 5 | 6 | 9 | 11 | 12 | 13 | 19 | 20 | 21 | 26 | 27 | 28 | 33 | 34 | 35 | 40
            | 41 => 0x01int,
            1 | 8 | 10 => 0x0A,
            2 => 0x1B,
            3 => 0x0F,
            4 | 16 => 0x03,
            7 | 14 => 0x05,
            15 => 0x08,
            17 | 24 => 0x02,
            18 | 22 | 23 => 0x04,
            _ => 0x00,
        },
        LUT_GRAY2@[42 * table + entry] as int / 64 == match (table, entry) {
            (1, 8) | (2, 8) | (3, 8) | (4, 8) => 1int,
            (1, 15) | (2, 15) | (3, 15) | (4, 15) => 1,
            (4, 17) | (4, 24) => 1,
            (1, 10) | (2, 10) | (3, 10) | (4, 10) => 2,
            (1, 17) | (1, 18) | (1, 22) | (1, 23) | (1, 24) => 2,
            (2, 3) | (2, 16) | (2, 17) => 2,
            (3, 1) | (3, 3) | (3, 16) => 2,
            (4, 1) | (4, 2) | (4, 3) => 2,
            _ => 0,
        },
        LUT_GRAY2@[rest] == if rest == 224 {
            0x02u8
        } else {
            0x00u8
        },
{
}

} // verus!
