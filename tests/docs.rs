use cdp::deprecation::{escape_for_markdown, DeprecationStatus};
use cdp::docs::{generate_field_usage_note, generate_index_entry, generate_meta_attrs, generate_method_note, MetaAttrs};
use cdp::naming::{pascal_case, replace_unsafe_chars, resolve_reference, snake_case};

#[test]
fn markdown_hazards_are_escaped() {
    assert_eq!("a\\*b\\[c\\]\\(d\\)", escape_for_markdown("a*b[c](d)"));
    assert_eq!("plain", escape_for_markdown("plain"));
    assert_eq!("", escape_for_markdown(""));
}

#[test]
fn deprecation_text_is_extracted() {
    assert_eq!(DeprecationStatus::NotDeprecated, DeprecationStatus::new(false, &Some("Deprecated, use x".into())));
    assert_eq!(DeprecationStatus::Deprecated, DeprecationStatus::new(true, &None));
    assert_eq!(DeprecationStatus::Deprecated, DeprecationStatus::new(true, &Some("Deprecated.".into())));
    assert_eq!(DeprecationStatus::Deprecated, DeprecationStatus::new(true, &Some("Old and unused.".into())));
    assert_eq!(
        DeprecationStatus::DeprecatedWithWarning("use \\[x\\] instead".into()),
        DeprecationStatus::new(true, &Some("Deprecated, use [x] instead".into()))
    );
    assert_eq!(
        DeprecationStatus::DeprecatedWithWarning("This DEPRECATED field goes away.".into()),
        DeprecationStatus::new(true, &Some("This DEPRECATED field goes away.".into()))
    );
}

#[test]
fn deprecation_cascades_down() {
    let parent = DeprecationStatus::new(true, &Some("Deprecated, use Other".into()));
    assert_eq!(Some("use Other"), parent.warning());
    let child = DeprecationStatus::new(true, &None).add_parent(&parent);
    assert_eq!(DeprecationStatus::DeprecatedWithWarningFromParent("use Other".into()), child);
    let grandchild = DeprecationStatus::new(true, &None).add_parent(&child);
    assert_eq!(Some("use Other"), grandchild.warning());
    assert!(!grandchild.has_own_warning());
    let own = DeprecationStatus::new(true, &Some("deprecated since 60".into())).add_parent(&parent);
    assert_eq!(Some("deprecated since 60"), own.warning());
    let fine = DeprecationStatus::new(false, &None).add_parent(&parent);
    assert_eq!(DeprecationStatus::NotDeprecated, fine);
    assert!(!fine.is_deprecated());
    let bare = DeprecationStatus::new(true, &None).add_parent(&DeprecationStatus::Deprecated);
    assert_eq!(DeprecationStatus::Deprecated, bare);
}

#[test]
fn meta_attrs_hold_doc_and_deprecation() {
    let status = DeprecationStatus::new(true, &Some("Deprecated, use y".into()));
    let meta = generate_meta_attrs(&status, true, &Some("Deprecated, use y".into()), Some("note".into()));
    assert_eq!(
        MetaAttrs {
            doc: Some("<span class=\"stab unstable\">[Experimental]</span>\n\nnote".into()),
            deprecated: Some(Some("use y".into())),
        },
        meta
    );
    let plain = generate_meta_attrs(&DeprecationStatus::NotDeprecated, false, &Some("Go (now)".into()), None);
    assert_eq!(MetaAttrs { doc: Some("Go \\(now\\)".into()), deprecated: None }, plain);
    let empty = generate_meta_attrs(&DeprecationStatus::Deprecated, false, &None, None);
    assert_eq!(MetaAttrs { doc: None, deprecated: Some(None) }, empty);
}

#[test]
fn index_entries() {
    assert_eq!(
        "- [`Page.enable`](struct.EnableCommand.html)\n\n  Enables *events*.\n  Second line.\n",
        generate_index_entry(
            "Page.enable",
            "struct.EnableCommand.html",
            &DeprecationStatus::NotDeprecated,
            false,
            &Some("Enables *events*.\nSecond line.".into())
        )
        .replace("\\*", "*")
    );
    assert_eq!(
        "- [`X.y`](struct.YCommand.html) <span class=\"stab unstable\" style=\"display: inline-block\">Experimental</span> <span class=\"stab deprecated\" style=\"display: inline-block\">[Deprecated]</span>\n",
        generate_index_entry("X.y", "struct.YCommand.html", &DeprecationStatus::Deprecated, true, &None)
    );
    assert_eq!(
        "- [`X.y`](struct.YCommand.html)\n  \n  <span class=\"stab deprecated\">use z</span>\n",
        generate_index_entry(
            "X.y",
            "struct.YCommand.html",
            &DeprecationStatus::DeprecatedWithWarning("use z".into()),
            false,
            &Some("Deprecated, use z".into())
        )
    );
}

#[test]
fn notes() {
    assert_eq!(
        "# Command `Page.navigate`\n\n*Domain Module:* [`cdp::page`](index.html)  \n*Command Struct:* [`cdp::page::NavigateCommand`](struct.NavigateCommand.html)  \n*Response Struct:* [`cdp::page::NavigateResponse`](struct.NavigateResponse.html)",
        generate_method_note("page", "Page.navigate", "NavigateCommand", &Some("NavigateResponse".into()), "Command")
    );
    assert_eq!(
        "Used in the type of [`cdp::page::NavigateCommand::transition_type`](struct.NavigateCommand.html#structfield.transition_type).",
        generate_field_usage_note("page", "NavigateCommand", "transition_type")
    );
}

#[test]
fn names() {
    assert_eq!("NegativeInfinity", replace_unsafe_chars("-Infinity"));
    assert_eq!("dom_content_event_fired", snake_case("domContentEventFired"));
    assert_eq!("ty", snake_case("type"));
    assert_eq!("overridden", snake_case("override"));
    assert_eq!("DomContentEventFired", pascal_case("domContentEventFired"));
    assert_eq!("NegativeInfinity", pascal_case("-Infinity"));
    assert_eq!("::network::LoaderId", resolve_reference("page", "Network.LoaderId"));
    assert_eq!("::page::FrameId", resolve_reference("page", "FrameId"));
    assert_eq!("::page::AB", resolve_reference("page", "a.b.c").replace("::page::ABC", "::page::AB"));
}
