use cc_browse::cli::{Action, Cli};
use cc_browse::item::{Item, ItemType, MetaInfo};

fn meta() -> MetaInfo {
    MetaInfo { created: 0, last_accessed: 0, last_written: 0, size: 0, readonly: false }
}

fn item(name: &str, ty: ItemType) -> Item {
    Item { ty, name: name.to_string(), readonly: false, created: 0, last_accessed: 0, last_written: 0 }
}

fn sample() -> Vec<Item> {
    vec![
        item("zoo", ItemType::Dir),
        item("alpha.txt", ItemType::File(3)),
        item("link", ItemType::Link("/tmp".to_string())),
    ]
}

fn visible_names(c: &Cli) -> Vec<String> {
    (0..c.sorted_items.len() + 2).map(|i| c.visible_item(i).name.clone()).collect()
}

fn enter_target(a: Action) -> Option<String> {
    match a {
        Action::Enter(s) => Some(s),
        _ => None,
    }
}

#[test]
fn dots_lead_the_view() {
    let c = Cli::new("/x".to_string(), vec![], meta(), meta());
    assert_eq!(visible_names(&c), vec!["..", "."]);
    assert_eq!(c.selected_item, 1);
    let mut c = Cli::new("/x".to_string(), sample(), meta(), meta());
    assert_eq!(visible_names(&c), vec!["..", ".", "alpha.txt", "link", "zoo"]);
    for b in b"zoo" {
        c.handle_input(*b);
    }
    assert_eq!(visible_names(&c), vec!["..", ".", "zoo", "alpha.txt", "link"]);
}

#[test]
fn enter_on_parent_then_move() {
    let mut c = Cli::new("/a/b".to_string(), sample(), meta(), meta());
    c.handle_input(b'q');
    assert_eq!(c.selected_item, 2);
    for _ in 0..2 {
        c.handle_input(224);
        c.handle_input(72);
    }
    assert_eq!(c.selected_item, 0);
    let a = c.handle_input(13);
    assert_eq!(enter_target(a), Some("..".to_string()));
    assert_eq!(c.path, "/a/b");
    c.move_dir("/a".to_string(), vec![item("b", ItemType::Dir), item("c", ItemType::Dir)], meta(), meta());
    assert_eq!(c.path, "/a");
    assert_eq!(c.query_string, "");
    assert_eq!(c.selected_item, 2);
    c.move_dir("/".to_string(), vec![], meta(), meta());
    assert_eq!(c.selected_item, 1);
}

#[test]
fn backspace_on_empty_query() {
    let mut c = Cli::new("/x".to_string(), sample(), meta(), meta());
    let a = c.handle_input(8);
    assert!(matches!(a, Action::Redraw));
    assert_eq!(c.query_string, "");
    c.handle_input(b'a');
    c.handle_input(b'b');
    c.handle_input(8);
    assert_eq!(c.query_string, "a");
}

#[test]
fn arrows_are_clamped() {
    let mut c = Cli::new("/x".to_string(), sample(), meta(), meta());
    for _ in 0..10 {
        c.handle_input(224);
        c.handle_input(80);
    }
    assert_eq!(c.selected_item, 4);
    c.handle_input(224);
    c.handle_input(73);
    assert_eq!(c.selected_item, 0);
    c.handle_input(224);
    c.handle_input(72);
    assert_eq!(c.selected_item, 0);
    c.handle_input(224);
    c.handle_input(81);
    assert_eq!(c.selected_item, 4);
    assert_eq!(c.query_string, "");
}

#[test]
fn keys_that_leave_the_session_or_open() {
    let mut c = Cli::new("/x".to_string(), sample(), meta(), meta());
    assert!(matches!(c.handle_input(3), Action::Quit));
    assert_eq!(enter_target(c.handle_input(27)), Some("..".to_string()));
    c.handle_input(224);
    assert_eq!(enter_target(c.handle_input(83)), Some("..".to_string()));
    // selection 2 is alpha.txt, a file
    match c.handle_input(13) {
        Action::Open(n) => assert_eq!(n, "alpha.txt"),
        _ => panic!("expected open"),
    }
    c.handle_input(224);
    c.handle_input(80);
    assert_eq!(enter_target(c.handle_input(13)), Some("link".to_string()));
    c.handle_input(224);
    c.handle_input(80);
    assert_eq!(enter_target(c.handle_input(13)), Some("zoo".to_string()));
    c.handle_input(224);
    c.handle_input(73);
    c.handle_input(224);
    c.handle_input(80);
    assert_eq!(enter_target(c.handle_input(13)), Some(".".to_string()));
}

#[test]
fn other_bytes_are_ignored() {
    let mut c = Cli::new("/x".to_string(), sample(), meta(), meta());
    assert!(matches!(c.handle_input(200), Action::Redraw));
    assert!(matches!(c.handle_input(127), Action::Redraw));
    assert_eq!(c.query_string, "");
    assert_eq!(c.selected_item, 2);
}

#[test]
fn screen_layout() {
    let mut c = Cli::new("/home/me".to_string(), sample(), meta(), meta());
    c.handle_input(b'z');
    let w = 40;
    let h = 8;
    let s = c.render(w, h, 0);
    let chars: Vec<char> = s.chars().collect();
    assert_eq!(chars.len(), w * h);
    let lines: Vec<String> = chars.chunks(w).map(|l| l.iter().collect()).collect();
    assert_eq!(lines[0], format!("{:40}", "/home/me"));
    assert!(lines[1].starts_with("  | ../"));
    assert!(lines[2].starts_with("  | ./"));
    assert!(lines[3].starts_with("> | zoo/"));
    assert!(lines[4].starts_with("  | alpha.txt"));
    assert!(lines[5].starts_with("  | link "));
    assert_eq!(lines[6], " ".repeat(40));
    assert_eq!(lines[7], format!("{:40}", ":z¦"));
}

#[test]
fn screen_taller_list_than_terminal() {
    let c = Cli::new("/p".to_string(), sample(), meta(), meta());
    let s = c.render(5, 3, 0);
    assert_eq!(s.chars().count(), 5 * 7);
    assert!(s.ends_with(":¦   "));
}
