use mycoserver::mycology::generate::{contains, get, Page};
use mycoserver::mycology::parse::{lines_of, sanitise, split_by, yaml, Layer, Parse};

fn data() -> String {
    [
        "intro",
        "gilled:",
        "  title: Gilled Mushrooms",
        "  Amanita:",
        "    muscaria:",
        "      common_name: Fly Agaric",
        "      blurb: Red: cap ",
        "      blurb: white spots",
        "  Russula:",
        "    emetica:",
        "      common_name: Sickener",
        "pored:",
        "  title: Boletes",
        "",
    ]
    .join("\n")
}

fn strings(v: &[&str]) -> Vec<String> {
    v.iter().map(|s| s.to_string()).collect()
}

#[test]
fn layer_conditions() {
    assert!(Layer::Category.condition("gilled:"));
    assert!(!Layer::Category.condition("  gilled:"));
    assert!(!Layer::Category.condition("gilled"));
    assert!(Layer::Genus.condition("  Amanita:"));
    assert!(!Layer::Genus.condition("   Amanita:"));
    assert!(Layer::Species.condition("    muscaria:"));
    assert!(!Layer::Species.condition("   muscaria:"));
}

#[test]
fn split_into_entries() {
    let lines = strings(&["x", "a:", "1", "b:", "2", "3"]);
    let r = split_by(lines, Layer::Category);
    assert_eq!(r, vec![strings(&["a:", "1"]), strings(&["b:", "2", "3"])]);
    assert!(split_by(strings(&["x", "y"]), Layer::Category).is_empty());
}

#[test]
fn sanitising_lines() {
    assert_eq!(sanitise(Some(&"  title: Gilled Mushrooms ".to_string())), "Gilled Mushrooms");
    assert_eq!(sanitise(Some(&"blurb: blurb: a:b".to_string())), "ab");
    assert_eq!(sanitise(Some(&"\tgilled:\n".to_string())), "gilled");
    assert_eq!(sanitise(None), "");
}

#[test]
fn lines_of_text() {
    assert_eq!(lines_of("a\nb\n"), strings(&["a", "b", ""]));
    assert_eq!(lines_of(""), strings(&[""]));
}

#[test]
fn whole_dataset() {
    let cats = yaml(&data(), Parse::All);
    assert_eq!(cats.len(), 2);
    assert_eq!(cats[0].label, "gilled");
    assert_eq!(cats[0].title, "Gilled Mushrooms");
    assert_eq!(cats[0].genera.len(), 2);
    assert_eq!(cats[0].genera[0].title, "Amanita");
    let sp = &cats[0].genera[0].species[0];
    assert_eq!(sp.title, "muscaria");
    assert_eq!(sp.name, "Fly Agaric");
    assert_eq!(sp.blurb, "Red capwhite spots");
    assert_eq!(cats[0].genera[1].species[0].name, "Sickener");
    assert_eq!(cats[1].label, "pored");
    assert_eq!(cats[1].title, "Boletes");
    assert!(cats[1].genera.is_empty());
}

#[test]
fn categories_only() {
    let cats = yaml(&data(), Parse::JustCats);
    assert_eq!(cats.len(), 2);
    assert!(cats[0].genera.is_empty());
    assert_eq!(cats[1].label, "pored");
}

#[test]
fn page_choice() {
    let cats = yaml(&data(), Parse::All);
    assert!(contains(&cats, &"pored".to_string()));
    assert!(!contains(&cats, &"nope".to_string()));
    assert!(matches!(get("/", cats.clone()), Some(Page::Menu)));
    assert!(matches!(get("", cats.clone()), Some(Page::Menu)));
    match get("/pored/", cats.clone()) {
        Some(Page::Category(c)) => assert_eq!(c.title, "Boletes"),
        _ => panic!("expected a category page"),
    }
    assert!(get("/nope", cats).is_none());
}
