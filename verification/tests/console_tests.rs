use lazyproarcconvert::artifact::{ArtifactConfig, ArtifactKind};
use lazyproarcconvert::console::{
    alto_versions, input_root_messages, jobs_back, jobs_forward, next_focus, next_job,
    needs_redraw, normal_key_action, output_root_message, position_or_first, prev_focus, prev_job,
    scroll_menu_down, scroll_menu_up, Action, Console, EditRequest, FocusedPane,
    InputRootOutcome, Key, SessionLog, UiMode,
};

fn console() -> Console {
    Console::new("ces".to_string(), "4.4".to_string(), 14, 0)
}

fn strings(items: &[&str]) -> Vec<String> {
    items.iter().map(|s| s.to_string()).collect()
}

#[test]
fn a_new_console_stands_at_the_start() {
    let c = console();
    assert_eq!(c.selected, 0);
    assert_eq!(c.focus, FocusedPane::Jobs);
    assert_eq!(c.mode, UiMode::Normal);
    assert_eq!(c.config, ArtifactConfig::all());
    assert_eq!(c.language_cursor, Some(14));
    assert_eq!(c.alto_cursor, Some(0));
    assert_eq!(c.lang, "ces");
    assert_eq!(c.alto_version, "4.4");
    assert!(c.log.lines.is_empty());
    assert_eq!(c.edit_buffer, "");
}

#[test]
fn the_selection_wraps_around() {
    assert_eq!(next_job(0, 3), 1);
    assert_eq!(next_job(2, 3), 0);
    assert_eq!(next_job(0, 0), 0);
    assert_eq!(next_job(7, 3), 2);
    assert_eq!(prev_job(0, 3), 2);
    assert_eq!(prev_job(2, 3), 1);
    assert_eq!(prev_job(0, 0), 0);
    assert_eq!(jobs_forward(1, 3, 10), 2);
    assert_eq!(jobs_back(1, 3, 10), 0);
    assert_eq!(jobs_forward(1, 3, 0), 1);
    assert_eq!(jobs_back(0, 1, 10), 0);
}

#[test]
fn movement_goes_to_the_focused_pane() {
    let mut c = console();
    c.down(3);
    assert_eq!(c.selected, 1);
    c.page_down(3);
    assert_eq!(c.selected, 2);
    c.up(3);
    c.page_up(3);
    assert_eq!(c.selected, 0);
    c.focus_next();
    assert_eq!(c.focus, FocusedPane::Detail);
    c.down(3);
    c.page_down(3);
    assert_eq!((c.selected, c.detail_scroll), (0, 11));
    c.up(3);
    assert_eq!(c.detail_scroll, 10);
    c.page_up(3);
    c.page_up(3);
    assert_eq!(c.detail_scroll, 0);
    c.focus_next();
    assert_eq!(c.focus, FocusedPane::Log);
    c.scroll_current_down(3, 3);
    assert_eq!(c.log.scroll, 3);
    c.scroll_current_up(5, 3);
    assert_eq!(c.log.scroll, 0);
    c.log.scroll = usize::MAX - 1;
    c.scroll_current_down(3, 3);
    assert_eq!(c.log.scroll, usize::MAX);
    c.focus_next();
    assert_eq!(c.focus, FocusedPane::Jobs);
    c.focus_prev();
    assert_eq!(c.focus, FocusedPane::Log);
}

#[test]
fn focus_goes_round() {
    for pane in [FocusedPane::Jobs, FocusedPane::Detail, FocusedPane::Log] {
        assert_eq!(prev_focus(next_focus(pane)), pane);
        assert_eq!(next_focus(next_focus(next_focus(pane))), pane);
    }
    assert_eq!(next_focus(FocusedPane::Jobs), FocusedPane::Detail);
    assert_eq!(prev_focus(FocusedPane::Jobs), FocusedPane::Log);
}

#[test]
fn menu_cursors_wrap_around() {
    assert_eq!(scroll_menu_up(Some(3), 5), Some(2));
    assert_eq!(scroll_menu_up(Some(0), 5), Some(4));
    assert_eq!(scroll_menu_up(None, 5), Some(0));
    assert_eq!(scroll_menu_up(Some(0), 0), Some(0));
    assert_eq!(scroll_menu_down(Some(3), 5), Some(4));
    assert_eq!(scroll_menu_down(Some(4), 5), Some(0));
    assert_eq!(scroll_menu_down(None, 5), Some(0));
    assert_eq!(scroll_menu_down(Some(0), 0), Some(0));
}

#[test]
fn keys_mean_actions() {
    assert_eq!(normal_key_action(Key::Char('q')), Action::Quit);
    assert_eq!(normal_key_action(Key::Char('m')), Action::Toggle(ArtifactKind::MasterDerivative));
    assert_eq!(normal_key_action(Key::Char('u')), Action::Toggle(ArtifactKind::UserDerivative));
    assert_eq!(normal_key_action(Key::Char('t')), Action::Toggle(ArtifactKind::PlainText));
    assert_eq!(normal_key_action(Key::Char('l')), Action::Toggle(ArtifactKind::LayoutXml));
    assert_eq!(normal_key_action(Key::Char('i')), Action::EditInput);
    assert_eq!(normal_key_action(Key::Char('I')), Action::EditInput);
    assert_eq!(normal_key_action(Key::Char('o')), Action::EditOutput);
    assert_eq!(normal_key_action(Key::Char('O')), Action::EditOutput);
    assert_eq!(normal_key_action(Key::Char('L')), Action::LanguageMenu);
    assert_eq!(normal_key_action(Key::Char('A')), Action::AltoVersionMenu);
    assert_eq!(normal_key_action(Key::Char('a')), Action::ProcessAllPending);
    assert_eq!(normal_key_action(Key::Char('F')), Action::ForceRerunSelected);
    assert_eq!(normal_key_action(Key::Char('R')), Action::ForceRerunAll);
    assert_eq!(normal_key_action(Key::Enter), Action::ProcessSelected);
    assert_eq!(normal_key_action(Key::Up), Action::Up);
    assert_eq!(normal_key_action(Key::Down), Action::Down);
    assert_eq!(normal_key_action(Key::PageUp), Action::PageUp);
    assert_eq!(normal_key_action(Key::PageDown), Action::PageDown);
    assert_eq!(normal_key_action(Key::Tab), Action::NextFocus);
    assert_eq!(normal_key_action(Key::BackTab), Action::PrevFocus);
    assert_eq!(normal_key_action(Key::Char('x')), Action::Nothing);
    assert_eq!(normal_key_action(Key::Esc), Action::Nothing);
    assert_eq!(normal_key_action(Key::F(2)), Action::Nothing);
    assert!(!needs_redraw(Action::Quit));
    assert!(!needs_redraw(Action::Nothing));
    assert!(needs_redraw(Action::Up));
    assert!(needs_redraw(Action::ForceRerunAll));
}

#[test]
fn toggles_flip_and_report() {
    let mut c = console();
    assert_eq!(c.toggle(ArtifactKind::MasterDerivative), "AC (Master) OFF");
    assert!(!c.config.master);
    assert_eq!(c.toggle(ArtifactKind::MasterDerivative), "AC (Master) ON");
    assert_eq!(c.toggle(ArtifactKind::UserDerivative), "UC (User) OFF");
    assert_eq!(c.toggle(ArtifactKind::PlainText), "TXT OFF");
    assert_eq!(c.toggle(ArtifactKind::LayoutXml), "ALTO OFF (verze 4.4)");
    assert_eq!(c.toggle(ArtifactKind::LayoutXml), "ALTO ON (verze 4.4)");
    assert_eq!(c.config, ArtifactConfig { master: true, user: false, text: false, layout: true });
}

#[test]
fn a_path_is_edited_and_applied() {
    let mut c = console();
    assert_eq!(
        c.start_edit_input("input"),
        "Editace input root adresáře – Enter=potvrdit, Esc=zrušit"
    );
    assert_eq!((c.mode, c.edit_buffer.as_str()), (UiMode::EditInput, "input"));
    assert_eq!(c.handle_edit_key(Key::Backspace), (EditRequest::Nothing, None));
    assert_eq!(c.handle_edit_key(Key::Char('2')), (EditRequest::Nothing, None));
    assert_eq!(c.handle_edit_key(Key::Char(' ')), (EditRequest::Nothing, None));
    assert_eq!(c.handle_edit_key(Key::Up), (EditRequest::Nothing, None));
    assert_eq!(c.edit_buffer, "inpu2 ");
    assert_eq!(c.handle_edit_key(Key::Enter), (EditRequest::Input("inpu2".to_string()), None));
    assert_eq!((c.mode, c.edit_buffer.as_str()), (UiMode::Normal, ""));
    assert_eq!(c.start_edit_output(" out "), "Editace output root – Enter=potvrdit, Esc=zrušit");
    assert_eq!(c.apply_edit(), EditRequest::Output("out".to_string()));
    assert_eq!(c.apply_edit(), EditRequest::Nothing);
}

#[test]
fn editing_is_given_up_with_esc() {
    let mut c = console();
    c.start_edit_output("out");
    c.handle_edit_key(Key::Char('x'));
    assert_eq!(
        c.handle_edit_key(Key::Esc),
        (EditRequest::Nothing, Some("Editace zrušena.".to_string()))
    );
    assert_eq!((c.mode, c.edit_buffer.as_str()), (UiMode::Normal, ""));
    let mut empty = console();
    empty.start_edit_input("");
    assert_eq!(empty.handle_edit_key(Key::Backspace), (EditRequest::Nothing, None));
    assert_eq!(empty.edit_buffer, "");
}

#[test]
fn a_language_is_picked_from_the_menu() {
    let codes = strings(&["afr", "ces", "deu", "eng", "fra", "ita", "pol"]);
    let mut c = Console::new("ces".to_string(), "4.4".to_string(), 1, 0);
    assert_eq!(
        c.show_language_menu(),
        "Výběr jazyka – ↑/↓: pohyb, Enter: vybrat, F2: vlastní zadání, Esc: zrušit"
    );
    assert_eq!(c.mode, UiMode::LanguageMenu);
    assert_eq!(c.handle_language_menu_key(Key::Down, &codes), None);
    assert_eq!(c.language_cursor, Some(2));
    assert_eq!(c.handle_language_menu_key(Key::PageDown, &codes), None);
    assert_eq!(c.language_cursor, Some(0));
    assert_eq!(c.handle_language_menu_key(Key::Up, &codes), None);
    assert_eq!(c.language_cursor, Some(6));
    assert_eq!(c.handle_language_menu_key(Key::PageUp, &codes), None);
    assert_eq!(c.language_cursor, Some(1));
    c.handle_language_menu_key(Key::Down, &codes);
    c.handle_language_menu_key(Key::Down, &codes);
    assert_eq!(c.handle_language_menu_key(Key::Char('x'), &codes), None);
    assert_eq!(
        c.handle_language_menu_key(Key::Enter, &codes),
        Some("Jazyk nastaven na: eng".to_string())
    );
    assert_eq!((c.mode, c.lang.as_str()), (UiMode::Normal, "eng"));
}

#[test]
fn the_language_menu_is_left_without_a_choice() {
    let codes = strings(&["afr", "ces"]);
    let mut c = console();
    c.show_language_menu();
    assert_eq!(c.handle_language_menu_key(Key::Enter, &codes), None);
    assert_eq!((c.mode, c.lang.as_str()), (UiMode::LanguageMenu, "ces"));
    assert_eq!(c.handle_language_menu_key(Key::F(3), &codes), None);
    assert_eq!(
        c.handle_language_menu_key(Key::Esc, &codes),
        Some("Výběr jazyka zrušen.".to_string())
    );
    assert_eq!(c.mode, UiMode::Normal);
}

#[test]
fn a_language_combination_is_typed() {
    let codes = strings(&["afr", "ces"]);
    let mut c = console();
    c.show_language_menu();
    assert_eq!(
        c.handle_language_menu_key(Key::F(2), &codes),
        Some("Vlastní kombinace jazyků (např. eng+ces+deu) – Enter=potvrdit, Esc=zrušit".to_string())
    );
    assert_eq!((c.mode, c.custom_lang_input.as_str()), (UiMode::CustomLangInput, "ces"));
    for ch in "+eng ".chars() {
        assert_eq!(c.handle_custom_lang_key(Key::Char(ch)), None);
    }
    assert_eq!(c.handle_custom_lang_key(Key::Tab), None);
    assert_eq!(
        c.handle_custom_lang_key(Key::Enter),
        Some("Jazyk nastaven na vlastní kombinaci: ces+eng".to_string())
    );
    assert_eq!((c.mode, c.lang.as_str(), c.custom_lang_input.as_str()), (UiMode::Normal, "ces+eng", ""));
}

#[test]
fn an_empty_combination_is_not_taken() {
    let mut c = console();
    c.start_custom_lang_input();
    for _ in 0..3 {
        assert_eq!(c.handle_custom_lang_key(Key::Backspace), None);
    }
    c.handle_custom_lang_key(Key::Char(' '));
    assert_eq!(c.handle_custom_lang_key(Key::Enter), None);
    assert_eq!((c.mode, c.lang.as_str(), c.custom_lang_input.as_str()), (UiMode::CustomLangInput, "ces", " "));
    assert_eq!(
        c.handle_custom_lang_key(Key::Esc),
        Some("Vlastní zadání jazyka zrušeno.".to_string())
    );
    assert_eq!((c.mode, c.custom_lang_input.as_str()), (UiMode::LanguageMenu, ""));
}

#[test]
fn a_layout_version_is_picked_from_the_menu() {
    let versions = alto_versions();
    assert_eq!(
        versions,
        strings(&["4.4", "4.3", "4.2", "4.1", "4.0", "3.0", "2.1", "2.0", "1.4", "1.3", "1.2", "1.1", "1.0"])
    );
    let mut c = console();
    assert_eq!(
        c.show_alto_version_menu(),
        "Výběr ALTO verze – ↑/↓: pohyb, Enter: vybrat, Esc: zrušit"
    );
    assert_eq!(c.handle_alto_version_menu_key(Key::PageDown, &versions), None);
    assert_eq!(c.alto_cursor, Some(5));
    assert_eq!(
        c.handle_alto_version_menu_key(Key::Enter, &versions),
        Some("ALTO verze nastavena na: 3.0".to_string())
    );
    assert_eq!((c.mode, c.alto_version.as_str()), (UiMode::Normal, "3.0"));
    c.show_alto_version_menu();
    assert_eq!(c.handle_alto_version_menu_key(Key::Up, &versions), None);
    assert_eq!(c.alto_cursor, Some(4));
    assert_eq!(c.handle_alto_version_menu_key(Key::F(2), &versions), None);
    assert_eq!(
        c.handle_alto_version_menu_key(Key::Esc, &versions),
        Some("Výběr ALTO verze zrušen.".to_string())
    );
    assert_eq!((c.mode, c.alto_version.as_str()), (UiMode::Normal, "3.0"));
}

#[test]
fn positions_are_found_or_default_to_the_first() {
    let list = strings(&["4.4", "4.3", "3.0", "4.3"]);
    assert_eq!(position_or_first(&list, "4.4"), 0);
    assert_eq!(position_or_first(&list, "4.3"), 1);
    assert_eq!(position_or_first(&list, "3.0"), 2);
    assert_eq!(position_or_first(&list, "9.9"), 0);
    assert_eq!(position_or_first(&Vec::new(), "x"), 0);
}

#[test]
fn a_new_job_list_resets_the_view() {
    let mut c = console();
    c.selected = 4;
    c.detail_scroll = 7;
    c.log.scroll = 9;
    c.log.lines.push("kept".to_string());
    c.jobs_replaced();
    assert_eq!((c.selected, c.detail_scroll, c.log.scroll), (0, 0, 0));
    assert_eq!(c.log.lines, vec!["kept"]);
}

#[test]
fn roots_are_reported() {
    assert_eq!(
        input_root_messages("x", &InputRootOutcome::NotADirectory),
        vec!["Input root adresář `x` neexistuje nebo není adresář."]
    );
    assert_eq!(input_root_messages("x", &InputRootOutcome::Applied), vec!["Input root nastaven na `x`"]);
    assert_eq!(
        input_root_messages("x", &InputRootOutcome::ListingFailed("denied".to_string())),
        vec!["Input root nastaven na `x`", "Chyba při načítání dávek: denied. Joby zůstávají prázdné."]
    );
    assert_eq!(output_root_message("o", &Ok(())), "Output root nastaven na `o`");
    assert_eq!(
        output_root_message("o", &Err("denied".to_string())),
        "Nelze vytvořit output root `o`: denied"
    );
}

#[test]
fn log_entries_are_stamped_with_the_time_of_day() {
    let mut log = SessionLog::new();
    log.push_log("Ready.");
    assert_eq!(log.lines.len(), 1);
    let entry = &log.lines[0];
    assert!(entry.ends_with("] Ready."));
    assert_eq!(entry.len(), "[00:00:00] Ready.".len());
    let bytes = entry.as_bytes();
    assert_eq!((bytes[0], bytes[3], bytes[6], bytes[9], bytes[10]), (b'[', b':', b':', b']', b' '));
    assert!([1, 2, 4, 5, 7, 8].iter().all(|&i| bytes[i].is_ascii_digit()));
}

#[test]
fn the_log_keeps_its_last_lines_when_it_overflows() {
    let mut log = SessionLog::new();
    for i in 0..1000 {
        log.push_entry(format!("line {i}"));
    }
    assert_eq!(log.lines.len(), 1000);
    assert_eq!(log.lines[0], "line 0");
    log.push_entry("line 1000".to_string());
    assert_eq!(log.lines.len(), 500);
    assert_eq!(log.lines[0], "line 501");
    assert_eq!(log.lines[499], "line 1000");
    assert_eq!(log.scroll, 480);
}

#[test]
fn the_log_follows_its_end_unless_scrolled_up() {
    let mut log = SessionLog::new();
    for i in 0..20 {
        log.push_entry(format!("line {i}"));
    }
    assert_eq!(log.scroll, 0);
    log.push_entry("line 20".to_string());
    assert_eq!(log.scroll, 1);
    for i in 21..100 {
        log.push_entry(format!("line {i}"));
    }
    assert_eq!(log.scroll, 80);
    log.scroll_up(60);
    assert_eq!(log.scroll, 20);
    log.push_entry("more".to_string());
    assert_eq!(log.scroll, 20);
    log.scroll_down(51);
    assert_eq!(log.scroll, 71);
    log.push_entry("again".to_string());
    assert_eq!(log.scroll, 71);
    log.scroll_down(2);
    log.push_entry("once more".to_string());
    assert_eq!(log.lines.len(), 103);
    assert_eq!(log.scroll, 83);
}

#[test]
fn an_entered_path_is_handed_out_for_the_root_being_edited() {
    let mut c = console();
    c.start_edit_input("old");
    assert_eq!(c.close_edit("new".to_string()), EditRequest::Input("new".to_string()));
    assert_eq!((c.mode, c.edit_buffer.as_str()), (UiMode::Normal, ""));
    c.start_edit_output("old");
    assert_eq!(c.close_edit(String::new()), EditRequest::Output(String::new()));
    assert_eq!(c.close_edit("x".to_string()), EditRequest::Nothing);
}

#[test]
fn a_typed_language_is_taken_unless_empty() {
    let mut c = console();
    c.start_custom_lang_input();
    assert_eq!(c.take_custom_lang(String::new()), None);
    assert_eq!((c.mode, c.lang.as_str()), (UiMode::CustomLangInput, "ces"));
    assert_eq!(
        c.take_custom_lang("deu+eng".to_string()),
        Some("Jazyk nastaven na vlastní kombinaci: deu+eng".to_string())
    );
    assert_eq!((c.mode, c.lang.as_str(), c.custom_lang_input.as_str()), (UiMode::Normal, "deu+eng", ""));
}
