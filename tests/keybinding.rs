use audetic::discovery::{get_all_config_files, sourced_paths, ConfigDiscovery};
use audetic::keybind::{
    check_conflicts, find_audetic_bindings, parse_key_string, status_from_bindings, KeyStringError,
    KeybindStatus, ProposedBinding, AUDETIC_SECTION_MARKER,
};
use audetic::parser::{parse_bind_line, parse_bindings_from_content, BindType, Modifier, Modifiers};
use audetic::writer::{find_section_end, remove_section, update_or_append_binding};

#[test]
fn test_parse_simple_bind() {
    let line = "bind = SUPER, R, exec, curl http://localhost";
    let binding = parse_bind_line(line, "/test", 1).unwrap();

    assert_eq!(binding.bind_type, BindType::Bind);
    assert!(binding.modifiers.contains(&Modifier::Super));
    assert_eq!(binding.key, "R");
    assert_eq!(binding.dispatcher, "exec");
    assert!(binding.command.contains("curl"));
}

#[test]
fn test_parse_bindd_with_description() {
    let line = "bindd = SUPER SHIFT, R, Audetic, exec, curl -X POST http://127.0.0.1:3737/toggle";
    let binding = parse_bind_line(line, "/test", 1).unwrap();

    assert_eq!(binding.bind_type, BindType::Bindd);
    assert!(binding.modifiers.contains(&Modifier::Super));
    assert!(binding.modifiers.contains(&Modifier::Shift));
    assert_eq!(binding.key, "R");
    assert_eq!(binding.description, Some("Audetic".to_string()));
    assert_eq!(binding.dispatcher, "exec");
}

#[test]
fn test_modifiers_display() {
    let mods = Modifiers::from_strs(&["SUPER", "SHIFT"]);
    assert_eq!(mods.to_string(), "SUPER SHIFT");
}

#[test]
fn test_modifiers_equality() {
    let mods1 = Modifiers::from_strs(&["SUPER", "SHIFT"]);
    let mods2 = Modifiers::from_strs(&["SUPER", "SHIFT"]);
    let mods3 = Modifiers::from_strs(&["SUPER"]);

    assert_eq!(mods1, mods2);
    assert_ne!(mods1, mods3);
}

#[test]
fn test_parse_key_string() {
    let binding = parse_key_string("SUPER SHIFT, R").unwrap();
    assert_eq!(binding.key, "R");
    assert!(binding.modifiers.0.len() == 2);

    let binding = parse_key_string("SUPER+R").unwrap();
    assert_eq!(binding.key, "R");

    let binding = parse_key_string("SUPER, T").unwrap();
    assert_eq!(binding.key, "T");
}

#[test]
fn test_append_binding() {
    let content = "# Existing config\nbind = SUPER, SPACE, exec, rofi\n";
    let binding = ProposedBinding {
        modifiers: Modifiers::from_strs(&["SUPER"]),
        key: "R".to_string(),
        description: "Audetic".to_string(),
        command: "curl -X POST http://127.0.0.1:3737/toggle".to_string(),
    };

    let result = update_or_append_binding(content, &binding);

    assert!(result.contains(AUDETIC_SECTION_MARKER));
    assert!(result.contains("bindd = SUPER, R, Audetic"));
    assert!(result.contains("# Existing config"));
}

#[test]
fn test_update_existing_binding() {
    let content = format!(
        "# Existing config\n{}\nbindd = SUPER, R, Audetic, exec, old-command\n\n# Other stuff\n",
        AUDETIC_SECTION_MARKER
    );
    let binding = ProposedBinding {
        modifiers: Modifiers::from_strs(&["SUPER", "SHIFT"]),
        key: "R".to_string(),
        description: "Audetic".to_string(),
        command: "curl -X POST http://127.0.0.1:3737/toggle".to_string(),
    };

    let result = update_or_append_binding(&content, &binding);

    assert!(result.contains("SUPER SHIFT, R"));
    assert!(!result.contains("old-command"));
    assert!(result.contains("# Other stuff"));
}

#[test]
fn test_config_discovery_writable() {
    let discovery = ConfigDiscovery {
        main_config: Some("/home/user/.config/hypr/hyprland.conf".to_string()),
        bindings_file: Some("/home/user/.config/hypr/bindings.conf".to_string()),
        sourced_files: vec![],
    };

    assert_eq!(
        discovery.writable_config(),
        Some(&"/home/user/.config/hypr/bindings.conf".to_string())
    );
}

#[test]
fn test_config_discovery_fallback_to_main() {
    let discovery = ConfigDiscovery {
        main_config: Some("/home/user/.config/hypr/hyprland.conf".to_string()),
        bindings_file: None,
        sourced_files: vec![],
    };

    assert_eq!(
        discovery.writable_config(),
        Some(&"/home/user/.config/hypr/hyprland.conf".to_string())
    );
}

#[test]
fn parse_content_skips_comments_and_counts_lines() {
    let content = "# comment\n\nbind = SUPER, Q, killactive,\n  bindl = , XF86AudioMute, exec, mute\nexec-once = waybar\nBINDD = CTRL ALT, T, Terminal, exec, kitty, --hold\n";
    let bindings = parse_bindings_from_content(content, "/cfg");
    assert_eq!(bindings.len(), 3);
    assert_eq!(bindings[0].source.line, 3);
    assert_eq!(bindings[0].command, "");
    assert_eq!(bindings[1].bind_type, BindType::Bindl);
    assert!(bindings[1].modifiers.is_empty());
    assert_eq!(bindings[1].display_key(), "XF86AudioMute");
    assert_eq!(bindings[2].bind_type, BindType::Bindd);
    assert_eq!(bindings[2].source.line, 6);
    assert_eq!(bindings[2].command, "kitty, --hold");
    assert_eq!(bindings[2].display_key(), "CTRL ALT + T");
    assert_eq!(bindings[2].source.file, "/cfg");
}

#[test]
fn parse_line_needs_four_fields_and_an_equals_sign() {
    assert!(parse_bind_line("bind = SUPER, R, exec", "/t", 1).is_none());
    assert!(parse_bind_line("binde = SUPER, R, exec, x", "/t", 1).is_none());
    assert!(parse_bind_line("bindd = SUPER, R, Desc, exec", "/t", 1).unwrap().command.is_empty());
}

#[test]
fn modifier_names_in_any_case() {
    assert_eq!(Modifier::parse("super"), Some(Modifier::Super));
    assert_eq!(Modifier::parse("$mainMod"), Some(Modifier::Super));
    assert_eq!(Modifier::parse("control"), Some(Modifier::Ctrl));
    assert_eq!(Modifier::parse("hyper"), None);
    assert_eq!(Modifiers::parse("super  alt bogus").0, vec![Modifier::Super, Modifier::Alt]);
}

#[test]
fn bind_type_names_are_lowercased() {
    assert_eq!(BindType::from_str("BINDR"), BindType::Bindr);
    assert_eq!(BindType::from_str("BindM"), BindType::Other("bindm".to_string()));
    assert_eq!(BindType::from_str("bindld").to_string(), "bindld");
}

#[test]
fn key_string_errors() {
    assert_eq!(parse_key_string(" + , ").unwrap_err(), KeyStringError::Empty);
    assert_eq!(parse_key_string("R").unwrap_err(), KeyStringError::NoModifiers);
    let b = parse_key_string("super+shift+t").unwrap();
    assert_eq!(b.key, "T");
    assert_eq!(b.display_key(), "SUPER SHIFT + T");
    assert_eq!(b.to_hyprland_line(), "bindd = SUPER SHIFT, T, Audetic, exec, curl -X POST http://127.0.0.1:3737/toggle");
}

#[test]
fn default_binding_and_conflicts() {
    let p = ProposedBinding::default();
    assert_eq!(p.display_key(), "SUPER + R");
    let content = "bind = SUPER, r, exec, other\nbind = SUPER SHIFT, R, exec, x\nbindd = SUPER, T, Audetic, exec, curl -X POST http://127.0.0.1:3737/toggle\n";
    let bindings = parse_bindings_from_content(content, "/c");
    let result = check_conflicts(&p, &bindings);
    assert!(result.has_conflicts());
    assert_eq!(result.conflicts.len(), 1);
    assert_eq!(result.conflicts[0].command, "other");
    let ours = find_audetic_bindings(&bindings);
    assert_eq!(ours.len(), 1);
    assert_eq!(ours[0].key, "T");
    match status_from_bindings(Some(&"/c".to_string()), &bindings) {
        KeybindStatus::Installed { display_key, command, .. } => {
            assert_eq!(display_key, "SUPER + T");
            assert!(command.contains("3737"));
        }
        other => panic!("unexpected status {:?}", other),
    }
    assert!(matches!(status_from_bindings(None, &bindings), KeybindStatus::NoConfig));
    assert!(matches!(
        status_from_bindings(Some(&"/c".to_string()), &bindings[..2]),
        KeybindStatus::NotInstalled { .. }
    ));
}

#[test]
fn section_end_and_removal() {
    let section = format!("{}\nbindd = SUPER, R, Audetic, exec, x\n\nrest\n", AUDETIC_SECTION_MARKER);
    let chars: Vec<char> = section.chars().collect();
    assert_eq!(find_section_end(&chars), AUDETIC_SECTION_MARKER.chars().count() + 1 + 35);
    let content = format!("a\n{}\nbindd = SUPER, R, Audetic, exec, x\n\n\nb\n", AUDETIC_SECTION_MARKER);
    assert_eq!(remove_section(&content), Some("a\nb\n".to_string()));
    assert_eq!(remove_section("a\nb"), None);
    let appended = update_or_append_binding("x", &ProposedBinding::default());
    assert_eq!(
        appended,
        format!("x\n\n{}\nbindd = SUPER, R, Audetic, exec, curl -X POST http://127.0.0.1:3737/toggle\n", AUDETIC_SECTION_MARKER)
    );
}

#[test]
fn sourced_files_and_config_file_list() {
    let content = "source = ~/.config/hypr/bindings.conf\nsource=/etc/hypr/x.conf\n# source = no\n";
    let paths = sourced_paths(content, Some("/home/u"));
    assert_eq!(paths, vec!["/home/u/.config/hypr/bindings.conf".to_string(), "/etc/hypr/x.conf".to_string()]);
    let discovery = ConfigDiscovery {
        main_config: Some("/m".to_string()),
        bindings_file: None,
        sourced_files: vec!["/a".to_string(), "/m".to_string(), "/a".to_string(), "/b".to_string()],
    };
    let files: Vec<String> = get_all_config_files(&discovery).into_iter().cloned().collect();
    assert_eq!(files, vec!["/m".to_string(), "/a".to_string(), "/b".to_string()]);
}
