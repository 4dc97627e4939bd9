use tui_chan::event::Config;
use tui_chan::keybinds::key::Key;
use tui_chan::style::{
    BlockBorderColor, BlockBorderType, BlockStyle, BorderType, Color, SelectedField, Style,
    StyleProvider,
};

#[test]
fn style_builders() {
    assert_eq!(Style::default(), Style { fg: None, bold: false, italic: false, underlined: false });
    assert_eq!(
        Style::default().fg(Color::Red).bold(),
        Style { fg: Some(Color::Red), bold: true, italic: false, underlined: false }
    );
    assert_eq!(
        Style::default().italic().underlined(),
        Style { fg: None, bold: false, italic: true, underlined: true }
    );
}

#[test]
fn border_color_follows_the_focus() {
    let (hi, lo) = (Color::Blue, Color::Reset);
    assert_eq!(
        BlockBorderColor::from_selected_field(&SelectedField::BoardList, hi, lo),
        BlockBorderColor::new(hi, lo, lo)
    );
    assert_eq!(
        BlockBorderColor::from_selected_field(&SelectedField::ThreadList, hi, lo),
        BlockBorderColor::new(lo, hi, lo)
    );
    let colors = BlockBorderColor::from_selected_field(&SelectedField::Thread, hi, lo);
    assert_eq!(colors.board_list(), lo);
    assert_eq!(colors.thread_list(), lo);
    assert_eq!(colors.thread(), hi);
}

#[test]
fn border_type_follows_the_focus() {
    let (hi, lo) = (BorderType::Thick, BorderType::Plain);
    assert_eq!(
        BlockBorderType::from_selected_field(&SelectedField::BoardList, hi, lo),
        BlockBorderType::new(hi, lo, lo)
    );
    assert_eq!(
        BlockBorderType::from_selected_field(&SelectedField::ThreadList, hi, lo),
        BlockBorderType::new(lo, hi, lo)
    );
    let types = BlockBorderType::from_selected_field(&SelectedField::Thread, hi, lo);
    assert_eq!(types.board_list(), lo);
    assert_eq!(types.thread_list(), lo);
    assert_eq!(types.thread(), hi);
}

#[test]
fn block_style_uses_the_border_values() {
    let style = BlockStyle::from_selected_field(
        &SelectedField::ThreadList,
        Color::Red,
        Color::Green,
        BorderType::Double,
        BorderType::Rounded,
        Color::Blue,
        Color::Reset,
    );
    assert_eq!(
        *style.border_color(),
        BlockBorderColor::new(Color::Reset, Color::Blue, Color::Reset)
    );
    assert_eq!(
        *style.border_type(),
        BlockBorderType::new(BorderType::Rounded, BorderType::Double, BorderType::Rounded)
    );
}

#[test]
fn style_provider_defaults() {
    let provider = StyleProvider::new();
    assert_eq!(*provider.highlight_color(), Color::DarkGray);
    let style = provider.default_from_selected_field(&SelectedField::Thread);
    assert_eq!(
        style,
        BlockStyle::new(
            BlockBorderColor::new(Color::Reset, Color::Reset, Color::Blue),
            BlockBorderType::new(BorderType::Plain, BorderType::Plain, BorderType::Plain),
        )
    );
}

#[test]
fn input_ends_with_the_exit_key() {
    let config = Config::default();
    assert_eq!(config, Config { exit_key: Key::Char('q'), tick_rate: 250 });
    assert!(config.ends_input(Key::Char('q'), false));
    assert!(!config.ends_input(Key::Char('q'), true));
    assert!(!config.ends_input(Key::Char('w'), false));
    assert!(!config.ends_input(Key::Ctrl('q'), false));
}
