use rustos::animation::{
    clear_logo_area, delay, draw_logo, Step, ANIMATION_CYCLES, FRAME_DELAY, LOGO, LOGO_COLORS,
};
use rustos::{animate_logo, Color};

/// What reaches the display, byte by byte.
#[derive(Debug, Clone, Copy, PartialEq, Eq)]
enum Event {
    Cursor(usize, usize),
    Color(Color, Color),
    Byte(u8),
    Delay(u64),
}

/// A display that keeps what it is told.
struct Recorder {
    events: Vec<Event>,
}

impl Recorder {
    fn set_cursor(&mut self, row: usize, col: usize) {
        self.events.push(Event::Cursor(row, col));
    }

    fn set_color(&mut self, foreground: Color, background: Color) {
        self.events.push(Event::Color(foreground, background));
    }

    fn write_byte(&mut self, byte: u8) {
        self.events.push(Event::Byte(byte));
    }

    fn write_string(&mut self, text: &str) {
        for byte in text.bytes() {
            self.write_byte(byte);
        }
    }

    fn delay(&mut self, count: u64) {
        self.events.push(Event::Delay(count));
    }
}

fn play(script: &[Step]) -> Vec<Event> {
    let mut display = Recorder { events: Vec::new() };
    for step in script {
        match *step {
            Step::SetCursor { row, col } => display.set_cursor(row, col),
            Step::SetColor { foreground, background } => display.set_color(foreground, background),
            Step::WriteByte { byte } => display.write_byte(byte),
            Step::WriteString { text } => display.write_string(text),
            Step::Delay { count } => display.delay(count),
        }
    }
    display.events
}

const EXPECTED_LOGO: [&str; 20] = [
    "                                                  ",
    "              *****************************       ",
    "          *********************************      ",
    "       ******       *******************           ",
    "     ******        *******************            ",
    "    *****         *******************             ",
    "   *****         ****                             ",
    "   ****         ****                              ",
    "  ****         ****                               ",
    "  ****        *****                               ",
    "  ****       ******                               ",
    "  ****      *******   ******************          ",
    "  *****    ****************************************",
    "   *****  ************************************** ",
    "   *********************************               ",
    "    *******************************                ",
    "     *****************************                 ",
    "       *************************                   ",
    "          ********************                     ",
    "                                                  ",
];

const EXPECTED_COLORS: [Color; 7] = [
    Color::LightRed,
    Color::Red,
    Color::Brown,
    Color::Yellow,
    Color::Brown,
    Color::Red,
    Color::LightRed,
];

fn expected_logo(display: &mut Recorder, color: Color) {
    display.set_cursor(2, 0);
    for line in EXPECTED_LOGO {
        display.set_color(color, Color::Black);
        display.write_string(line);
        display.write_string("\n");
    }
}

fn expected_clearing(display: &mut Recorder) {
    display.set_color(Color::White, Color::Black);
    for row in 2..(2 + EXPECTED_LOGO.len()) {
        display.set_cursor(row, 0);
        for _ in 0..80 {
            display.write_byte(b' ');
        }
    }
}

fn expected_animation() -> Vec<Event> {
    let mut display = Recorder { events: Vec::new() };
    display.set_cursor(12, 30);
    display.set_color(Color::White, Color::Black);
    display.write_string("Loading RustOS...");
    for progress in 0..=40 {
        display.set_cursor(14, 20);
        display.set_color(Color::White, Color::Black);
        display.write_string("[");
        for i in 0..40 {
            if i < progress {
                display.set_color(Color::Green, Color::Black);
                display.write_byte(b'=');
            } else {
                display.set_color(Color::DarkGray, Color::Black);
                display.write_byte(b' ');
            }
        }
        display.set_color(Color::White, Color::Black);
        display.write_string("]");
        display.set_cursor(14, 62);
        display.write_string(&format!("{:3}%", progress * 100 / 40));
        display.delay(5000000 / 2);
    }
    for row in 12..15 {
        display.set_cursor(row, 0);
        for _ in 0..80 {
            display.write_byte(b' ');
        }
    }
    for cycle in 0..8 {
        for (i, &color) in EXPECTED_COLORS.iter().enumerate() {
            expected_logo(&mut display, color);
            if cycle == 8 - 1 && i == EXPECTED_COLORS.len() - 1 {
                display.delay(5000000 * 2);
            } else {
                display.delay(5000000 / 4);
            }
        }
    }
    expected_logo(&mut display, Color::Brown);
    display.delay(5000000);
    expected_clearing(&mut display);
    display.events
}

#[test]
fn animation_plays_as_the_banner_the_bar_and_the_pulsing_logo() {
    assert_eq!(play(&animate_logo()), expected_animation());
}

#[test]
fn animation_begins_with_the_loading_banner() {
    let script = animate_logo();
    assert_eq!(
        script[..3],
        [
            Step::SetCursor { row: 12, col: 30 },
            Step::SetColor { foreground: Color::White, background: Color::Black },
            Step::WriteString { text: "Loading RustOS..." },
        ]
    );
}

#[test]
fn animation_has_a_fixed_number_of_steps_and_spins() {
    let script = animate_logo();
    let frame = 3 + 2 * 40 + 3 + 3 + 1 + 1;
    let logo = 1 + 3 * 20;
    let blank = 1 + 80;
    assert_eq!(script.len(), 3 + 41 * frame + 3 * blank + 56 * (logo + 1) + logo + 1 + 1 + 20 * blank);
    let spins: u64 = script
        .iter()
        .map(|step| match step {
            Step::Delay { count } => *count,
            _ => 0,
        })
        .sum();
    assert_eq!(spins, 41 * 2500000 + 55 * 1250000 + 10000000 + 5000000);
}

#[test]
fn progress_is_shown_as_a_percentage_in_three_cells() {
    let script = animate_logo();
    let mut shown = Vec::new();
    for at in 0..script.len() {
        if script[at] == (Step::WriteString { text: "%" }) {
            let cells: Vec<u8> = script[at - 3..at]
                .iter()
                .map(|step| match step {
                    Step::WriteByte { byte } => *byte,
                    other => panic!("no byte: {:?}", other),
                })
                .collect();
            shown.push(String::from_utf8(cells).unwrap());
        }
    }
    assert_eq!(shown.len(), 41);
    assert_eq!(shown[0], "  0");
    assert_eq!(shown[1], "  2");
    assert_eq!(shown[3], "  7");
    assert_eq!(shown[4], " 10");
    assert_eq!(shown[20], " 50");
    assert_eq!(shown[39], " 97");
    assert_eq!(shown[40], "100");
}

#[test]
fn bar_fills_from_the_left() {
    let script = animate_logo();
    let starts: Vec<usize> = (0..script.len())
        .filter(|&at| script[at] == (Step::WriteString { text: "[" }))
        .collect();
    assert_eq!(starts.len(), 41);
    for (progress, &start) in starts.iter().enumerate() {
        for cell in 0..40 {
            let color = script[start + 1 + 2 * cell];
            let byte = script[start + 2 + 2 * cell];
            if cell < progress {
                assert_eq!(color, Step::SetColor { foreground: Color::Green, background: Color::Black });
                assert_eq!(byte, Step::WriteByte { byte: b'=' });
            } else {
                assert_eq!(
                    color,
                    Step::SetColor { foreground: Color::DarkGray, background: Color::Black }
                );
                assert_eq!(byte, Step::WriteByte { byte: b' ' });
            }
        }
        assert_eq!(script[start + 82], Step::WriteString { text: "]" });
    }
}

#[test]
fn draw_logo_appends_the_logo_in_the_color() {
    let mut script = vec![Step::Delay { count: 7 }];
    draw_logo(&mut script, Color::Cyan);
    let mut display = Recorder { events: vec![Event::Delay(7)] };
    expected_logo(&mut display, Color::Cyan);
    assert_eq!(play(&script), display.events);
    assert_eq!(script.len(), 1 + 1 + 3 * 20);
    assert_eq!(script[1], Step::SetCursor { row: 2, col: 0 });
    assert_eq!(script[2], Step::SetColor { foreground: Color::Cyan, background: Color::Black });
    assert_eq!(script[3], Step::WriteString { text: EXPECTED_LOGO[0] });
    assert_eq!(script[4], Step::WriteString { text: "\n" });
}

#[test]
fn clear_logo_area_appends_twenty_blank_rows() {
    let mut script = vec![Step::Delay { count: 7 }];
    clear_logo_area(&mut script);
    let mut display = Recorder { events: vec![Event::Delay(7)] };
    expected_clearing(&mut display);
    assert_eq!(play(&script), display.events);
    assert_eq!(script[1], Step::SetColor { foreground: Color::White, background: Color::Black });
    assert_eq!(script[2], Step::SetCursor { row: 2, col: 0 });
    assert_eq!(script[script.len() - 81], Step::SetCursor { row: 21, col: 0 });
}

#[test]
fn logo_and_gradient_are_as_designed() {
    assert_eq!(LOGO, EXPECTED_LOGO);
    assert_eq!(LOGO_COLORS, EXPECTED_COLORS);
    assert_eq!(FRAME_DELAY, 5000000);
    assert_eq!(ANIMATION_CYCLES, 8);
}

#[test]
fn delay_comes_back() {
    delay(0);
    delay(1);
    delay(100000);
}

#[test]
fn colors_stand_in_palette_order() {
    let palette = [
        Color::Black,
        Color::Blue,
        Color::Green,
        Color::Cyan,
        Color::Red,
        Color::Magenta,
        Color::Brown,
        Color::LightGray,
        Color::DarkGray,
        Color::LightBlue,
        Color::LightGreen,
        Color::LightCyan,
        Color::LightRed,
        Color::Pink,
        Color::Yellow,
        Color::White,
    ];
    for (number, color) in palette.iter().enumerate() {
        assert_eq!(*color as u8, number as u8);
    }
}
