//! The startup animation, as the script of display steps that the kernel
//! plays: a loading banner with a progress bar, then the logo pulsing through
//! a color gradient.
//!
//! Nothing here touches the screen. `animate_logo` computes the steps in the
//! order in which they are to be performed; whoever owns the display performs
//! them, and calls `delay` where the script asks for a pause.

use vstd::prelude::*;
use crate::color::Color;

verus! {

/// The logo, one string per screen row.
pub const LOGO: [&'static str; 20] = [
    "                                                  ",
    "              *****************************       ",
    "          *********************************      ",
    "       ******       *******************           ",
    "     ******        *******************            ",
    "    *****         *******************             ",
    "   *****         ****                             ",
    "   ****         ****                              ",
    "  ****         ****                               ",
    "  ****        *****                               ",
    "  ****       ******                               ",
    "  ****      *******   ******************          ",
    "  *****    ****************************************",
    "   *****  ************************************** ",
    "   *********************************               ",
    "    *******************************                ",
    "     *****************************                 ",
    "       *************************                   ",
    "          ********************                     ",
    "                                                  ",
];

/// Number of spins that one frame of the animation is held for.
pub const FRAME_DELAY: u64 = 5000000;

/// How often the logo runs through the color gradient.
pub const ANIMATION_CYCLES: usize = 8;

/// The color gradient of the pulsing logo.
pub const LOGO_COLORS: [Color; 7] = [
    Color::LightRed,
    Color::Red,
    Color::Brown,
    Color::Yellow,
    Color::Brown,
    Color::Red,
    Color::LightRed,
];

/// Width of the display in cells.
pub const SCREEN_WIDTH: usize = 80;

/// First screen row of the logo.
pub const LOGO_TOP: usize = 2;

/// Screen row of the loading banner.
pub const BANNER_ROW: usize = 12;

/// Screen row of the progress bar.
pub const BAR_ROW: usize = 14;

/// Number of cells of the progress bar.
pub const BAR_WIDTH: usize = 40;

/// The byte of an empty cell.
pub const BLANK: u8 = 0x20;

/// The byte of a filled cell of the progress bar, an equals sign.
pub const BAR_FILL: u8 = 0x3d;

/// The byte of the digit zero; the other digits follow it.
pub const DIGIT_ZERO: u8 = 0x30;

/// One step of the animation script.
#[derive(Debug, Clone, Copy, PartialEq, Eq)]
pub enum Step {
    /// Move the cursor to a cell.
    SetCursor { row: usize, col: usize },
    /// Choose the colors of what is written from now on.
    SetColor { foreground: Color, background: Color },
    /// Write one byte at the cursor.
    WriteByte { byte: u8 },
    /// Write a string at the cursor.
    WriteString { text: &'static str },
    /// Busy-wait for so many spins.
    Delay { count: u64 },
}

/// The step that selects `foreground` on black.
pub open spec fn on_black(foreground: Color) -> Step {
    Step::SetColor { foreground, background: Color::Black }
}

/// The three cells of a number below 1000, right-aligned: spaces in place of
/// leading zeros, and the digits in ASCII.
pub open spec fn number_field(value: int) -> Seq<u8> {
    seq![
        if value >= 100 { (DIGIT_ZERO + value / 100) as u8 } else { BLANK },
        if value >= 10 { (DIGIT_ZERO + value / 10 % 10) as u8 } else { BLANK },
        (DIGIT_ZERO + value % 10) as u8,
    ]
}

/// One cell of the progress bar: filled where the cell lies left of
/// `progress`, empty elsewhere.
pub open spec fn bar_cell(progress: int, cell: int) -> Seq<Step> {
    if cell < progress {
        seq![on_black(Color::Green), Step::WriteByte { byte: BAR_FILL }]
    } else {
        seq![on_black(Color::DarkGray), Step::WriteByte { byte: BLANK }]
    }
}

/// The first `cells` cells of the progress bar.
pub open spec fn bar(progress: int, cells: int) -> Seq<Step>
    decreases cells,
{
    if cells <= 0 {
        Seq::empty()
    } else {
        bar(progress, cells - 1) + bar_cell(progress, cells - 1)
    }
}

/// One frame of the loading phase: the bracketed bar filled up to
/// `progress`, the percentage behind it, and the pause after it.
pub open spec fn progress_frame(progress: int) -> Seq<Step> {
    let percent = number_field(progress * 100 / (BAR_WIDTH as int));
    seq![
        Step::SetCursor { row: BAR_ROW, col: 20 },
        on_black(Color::White),
        Step::WriteString { text: "[" },
    ] + bar(progress, BAR_WIDTH as int) + seq![
        on_black(Color::White),
        Step::WriteString { text: "]" },
        Step::SetCursor { row: BAR_ROW, col: 62 },
        Step::WriteByte { byte: percent[0] },
        Step::WriteByte { byte: percent[1] },
        Step::WriteByte { byte: percent[2] },
        Step::WriteString { text: "%" },
        Step::Delay { count: FRAME_DELAY / 2 },
    ]
}

/// The first `frames` frames of the loading phase.
pub open spec fn progress_frames(frames: int) -> Seq<Step>
    decreases frames,
{
    if frames <= 0 {
        Seq::empty()
    } else {
        progress_frames(frames - 1) + progress_frame(frames - 1)
    }
}

/// A screen row overwritten with spaces from its first cell to its last.
pub open spec fn blank_row(row: int) -> Seq<Step> {
    seq![Step::SetCursor { row: row as usize, col: 0 }] + Seq::new(
        SCREEN_WIDTH as nat,
        |cell: int| Step::WriteByte { byte: BLANK },
    )
}

/// The `rows` screen rows from `first` on, overwritten with spaces.
pub open spec fn blank_rows(first: int, rows: int) -> Seq<Step>
    decreases rows,
{
    if rows <= 0 {
        Seq::empty()
    } else {
        blank_rows(first, rows - 1) + blank_row(first + rows - 1)
    }
}

/// The first `rows` rows of the logo, each in `color` and ended by a line
/// break.
pub open spec fn logo_rows(color: Color, rows: int) -> Seq<Step>
    decreases rows,
{
    if rows <= 0 {
        Seq::empty()
    } else {
        logo_rows(color, rows - 1) + seq![
            on_black(color),
            Step::WriteString { text: LOGO@[rows - 1] },
            Step::WriteString { text: "\n" },
        ]
    }
}

/// The whole logo in `color`, drawn from its top row down.
pub open spec fn logo_frame(color: Color) -> Seq<Step> {
    seq![Step::SetCursor { row: LOGO_TOP, col: 0 }] + logo_rows(color, LOGO@.len() as int)
}

/// The rows of the logo overwritten with spaces.
pub open spec fn cleared_logo_area() -> Seq<Step> {
    seq![on_black(Color::White)] + blank_rows(LOGO_TOP as int, LOGO@.len() as int)
}

/// Number of frames of the pulsing phase.
pub open spec fn pulse_count() -> int {
    ANIMATION_CYCLES * LOGO_COLORS@.len()
}

/// Frame `frame` of the pulsing phase: the logo in the gradient's next
/// color, held for a quarter of a frame, the very last one for two.
pub open spec fn pulse(frame: int) -> Seq<Step> {
    let hold = if frame == pulse_count() - 1 {
        (FRAME_DELAY * 2) as u64
    } else {
        FRAME_DELAY / 4
    };
    logo_frame(LOGO_COLORS@[frame % (LOGO_COLORS@.len() as int)]) + seq![
        Step::Delay { count: hold },
    ]
}

/// The first `frames` frames of the pulsing phase.
pub open spec fn pulses(frames: int) -> Seq<Step>
    decreases frames,
{
    if frames <= 0 {
        Seq::empty()
    } else {
        pulses(frames - 1) + pulse(frames - 1)
    }
}

/// The whole animation: the banner, the bar filling from empty to full, the
/// loading rows wiped, the logo pulsing, the logo at rest, and the logo's
/// rows wiped.
pub open spec fn animation() -> Seq<Step> {
    seq![
        Step::SetCursor { row: BANNER_ROW, col: 30 },
        on_black(Color::White),
        Step::WriteString { text: "Loading RustOS..." },
    ] + progress_frames(BAR_WIDTH + 1) + blank_rows(BANNER_ROW as int, 3) + pulses(pulse_count())
        + logo_frame(Color::Brown) + seq![Step::Delay { count: FRAME_DELAY }]
        + cleared_logo_area()
}

/// One turn of a busy-wait loop. Calls `core::hint::spin_loop`, which tells
/// the processor that the code is spinning; nothing is claimed of it.
#[verifier::external_body]
fn spin_once() {
    core::hint::spin_loop();
}

/// Busy-waits for `count` spins.
pub fn delay(count: u64) {
    let mut spun: u64 = 0;
    while spun < count
        invariant
            spun <= count,
        decreases count - spun,
    {
        spin_once();
        spun += 1;
    }
}

/// Appends the three cells of `value`, right-aligned.
fn push_number(script: &mut Vec<Step>, value: usize)
    requires
        value < 1000,
    ensures
        final(script)@ == old(script)@ + seq![
            Step::WriteByte { byte: number_field(value as int)[0] },
            Step::WriteByte { byte: number_field(value as int)[1] },
            Step::WriteByte { byte: number_field(value as int)[2] },
        ],
{
    let hundreds: u8 = (value / 100) as u8;
    let tens: u8 = (value / 10 % 10) as u8;
    let ones: u8 = (value % 10) as u8;
    let first: u8 = if value >= 100 { DIGIT_ZERO + hundreds } else { BLANK };
    let second: u8 = if value >= 10 { DIGIT_ZERO + tens } else { BLANK };
    let third: u8 = DIGIT_ZERO + ones;
    script.push(Step::WriteByte { byte: first });
    script.push(Step::WriteByte { byte: second });
    script.push(Step::WriteByte { byte: third });
    assert(script@ =~= old(script)@ + seq![
        Step::WriteByte { byte: number_field(value as int)[0] },
        Step::WriteByte { byte: number_field(value as int)[1] },
        Step::WriteByte { byte: number_field(value as int)[2] },
    ]);
}

/// Appends one frame of the loading phase.
fn push_progress_frame(script: &mut Vec<Step>, progress: usize)
    requires
        progress <= BAR_WIDTH,
    ensures
        final(script)@ == old(script)@ + progress_frame(progress as int),
{
    script.push(Step::SetCursor { row: BAR_ROW, col: 20 });
    script.push(Step::SetColor { foreground: Color::White, background: Color::Black });
    script.push(Step::WriteString { text: "[" });
    let ghost head = script@;
    let mut cell: usize = 0;
    while cell < BAR_WIDTH
        invariant
            cell <= BAR_WIDTH,
            script@ == head + bar(progress as int, cell as int),
        decreases BAR_WIDTH - cell,
    {
        if cell < progress {
            script.push(Step::SetColor { foreground: Color::Green, background: Color::Black });
            script.push(Step::WriteByte { byte: BAR_FILL });
        } else {
            script.push(
                Step::SetColor { foreground: Color::DarkGray, background: Color::Black },
            );
            script.push(Step::WriteByte { byte: BLANK });
        }
        assert(script@ =~= head + (bar(progress as int, cell as int) + bar_cell(
            progress as int,
            cell as int,
        )));
        cell += 1;
    }
    script.push(Step::SetColor { foreground: Color::White, background: Color::Black });
    script.push(Step::WriteString { text: "]" });
    script.push(Step::SetCursor { row: BAR_ROW, col: 62 });
    push_number(script, progress * 100 / BAR_WIDTH);
    script.push(Step::WriteString { text: "%" });
    script.push(Step::Delay { count: FRAME_DELAY / 2 });
    assert(script@ =~= old(script)@ + progress_frame(progress as int));
}

/// Appends `rows` blank screen rows, from row `first` on.
fn push_blank_rows(script: &mut Vec<Step>, first: usize, rows: usize)
    requires
        first + rows <= usize::MAX,
    ensures
        final(script)@ == old(script)@ + blank_rows(first as int, rows as int),
{
    let mut done: usize = 0;
    while done < rows
        invariant
            done <= rows,
            first + rows <= usize::MAX,
            script@ == old(script)@ + blank_rows(first as int, done as int),
        decreases rows - done,
    {
        let ghost above = script@;
        script.push(Step::SetCursor { row: first + done, col: 0 });
        let mut cell: usize = 0;
        while cell < SCREEN_WIDTH
            invariant
                cell <= SCREEN_WIDTH,
                script@ == above + blank_row((first + done) as int).take(1 + cell),
            decreases SCREEN_WIDTH - cell,
        {
            script.push(Step::WriteByte { byte: BLANK });
            cell += 1;
        }
        assert(script@ =~= old(script)@ + (blank_rows(first as int, done as int) + blank_row(
            (first + done) as int,
        )));
        done += 1;
    }
}

/// Appends the steps that draw the logo in `color`.
pub fn draw_logo(script: &mut Vec<Step>, color: Color)
    ensures
        final(script)@ == old(script)@ + logo_frame(color),
{
    script.push(Step::SetCursor { row: LOGO_TOP, col: 0 });
    let ghost head = script@;
    let mut row: usize = 0;
    while row < LOGO.len()
        invariant
            row <= LOGO@.len(),
            script@ == head + logo_rows(color, row as int),
        decreases LOGO@.len() - row,
    {
        script.push(Step::SetColor { foreground: color, background: Color::Black });
        script.push(Step::WriteString { text: LOGO[row] });
        script.push(Step::WriteString { text: "\n" });
        assert(script@ =~= head + logo_rows(color, row as int + 1));
        row += 1;
    }
    assert(script@ =~= old(script)@ + logo_frame(color));
}

/// Appends the steps that wipe the rows of the logo.
pub fn clear_logo_area(script: &mut Vec<Step>)
    ensures
        final(script)@ == old(script)@ + cleared_logo_area(),
{
    script.push(Step::SetColor { foreground: Color::White, background: Color::Black });
    push_blank_rows(script, LOGO_TOP, LOGO.len());
    assert(script@ =~= old(script)@ + cleared_logo_area());
}

/// The script of the startup animation.
pub fn animate_logo() -> (script: Vec<Step>)
    ensures
        script@ == animation(),
{
    let mut script: Vec<Step> = Vec::new();
    script.push(Step::SetCursor { row: BANNER_ROW, col: 30 });
    script.push(Step::SetColor { foreground: Color::White, background: Color::Black });
    script.push(Step::WriteString { text: "Loading RustOS..." });
    let ghost banner = script@;

    let mut progress: usize = 0;
    while progress <= BAR_WIDTH
        invariant
            progress <= BAR_WIDTH + 1,
            script@ == banner + progress_frames(progress as int),
        decreases BAR_WIDTH + 1 - progress,
    {
        push_progress_frame(&mut script, progress);
        assert(script@ =~= banner + progress_frames(progress as int + 1));
        progress += 1;
    }

    push_blank_rows(&mut script, BANNER_ROW, 3);
    let ghost loaded = script@;

    let mut cycle: usize = 0;
    while cycle < ANIMATION_CYCLES
        invariant
            cycle <= ANIMATION_CYCLES,
            script@ == loaded + pulses(cycle * LOGO_COLORS@.len()),
        decreases ANIMATION_CYCLES - cycle,
    {
        let mut shade: usize = 0;
        while shade < LOGO_COLORS.len()
            invariant
                cycle < ANIMATION_CYCLES,
                shade <= LOGO_COLORS@.len(),
                script@ == loaded + pulses(cycle * LOGO_COLORS@.len() + shade),
            decreases LOGO_COLORS@.len() - shade,
        {
            assert(LOGO_COLORS@.len() == 7);
            let ghost frame: int = cycle * 7 + shade;
            draw_logo(&mut script, LOGO_COLORS[shade]);
            if cycle == ANIMATION_CYCLES - 1 && shade == LOGO_COLORS.len() - 1 {
                script.push(Step::Delay { count: FRAME_DELAY * 2 });
            } else {
                script.push(Step::Delay { count: FRAME_DELAY / 4 });
            }
            assert(frame % 7 == shade);
            assert(frame == pulse_count() - 1 <==> cycle == ANIMATION_CYCLES - 1 && shade == 6);
            assert(script@ =~= loaded + (pulses(frame) + pulse(frame)));
            shade += 1;
        }
        assert(LOGO_COLORS@.len() == 7);
        cycle += 1;
    }

    draw_logo(&mut script, Color::Brown);
    script.push(Step::Delay { count: FRAME_DELAY });
    clear_logo_area(&mut script);
    assert(script@ =~= animation());
    script
}

/// What a cell of a number field stands for: a blank for nothing, a digit
/// for itself.
pub open spec fn cell_value(cell: u8) -> int {
    if cell == BLANK {
        0
    } else {
        cell - DIGIT_ZERO
    }
}

/// The number field reads as its number: each cell is a blank or a digit,
/// the cells read as hundreds, tens and ones give the value back, the last
/// cell is always a digit, and a blank stands only where no digit stands
/// left of it and a zero never at the front of a longer number.
pub proof fn lemma_number_field(value: int)
    requires
        0 <= value < 1000,
    ensures
        number_field(value).len() == 3,
        forall|cell: int|
            0 <= cell < 3 ==> #[trigger] number_field(value)[cell] == BLANK || DIGIT_ZERO
                <= number_field(value)[cell] <= DIGIT_ZERO + 9,
        100 * cell_value(number_field(value)[0]) + 10 * cell_value(number_field(value)[1])
            + cell_value(number_field(value)[2]) == value,
        number_field(value)[2] != BLANK,
        number_field(value)[0] != BLANK ==> number_field(value)[1] != BLANK,
        number_field(value)[0] != DIGIT_ZERO,
        number_field(value)[0] == BLANK ==> number_field(value)[1] != DIGIT_ZERO,
{
}

/// The progress bar cell by cell: each cell takes two steps, a color and a
/// byte, and the cells left of `progress` are filled in green, the others
/// blank.
pub proof fn lemma_bar(progress: int, cells: int, cell: int)
    requires
        0 <= cell < cells,
    ensures
        bar(progress, cells).len() == 2 * cells,
        bar(progress, cells)[2 * cell] == on_black(
            if cell < progress {
                Color::Green
            } else {
                Color::DarkGray
            },
        ),
        bar(progress, cells)[2 * cell + 1] == (Step::WriteByte {
            byte: if cell < progress {
                BAR_FILL
            } else {
                BLANK
            },
        }),
    decreases cells,
{
    lemma_bar_len(progress, cells - 1);
    if cell < cells - 1 {
        lemma_bar(progress, cells - 1, cell);
    }
}

/// The progress bar takes two steps per cell.
proof fn lemma_bar_len(progress: int, cells: int)
    requires
        0 <= cells,
    ensures
        bar(progress, cells).len() == 2 * cells,
    decreases cells,
{
    if cells > 0 {
        lemma_bar_len(progress, cells - 1);
    }
}

} // verus!
