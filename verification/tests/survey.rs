use wifichecker::models::calibration::CalibrationClicks;
use wifichecker::models::floor::is_pdf_path;
use wifichecker::models::floor::Floor;
use wifichecker::models::measurement::Measurement;
use wifichecker::models::project::Project;
use wifichecker::Survey;

fn names(s: &Survey) -> Vec<String> {
    s.project().floors.iter().map(|f| f.name.clone()).collect()
}

fn three_floors() -> Survey {
    let mut p = Project::new("Office");
    p.add_floor(Floor::new("A"));
    p.add_floor(Floor::new("B"));
    p.add_floor(Floor::new("C"));
    Survey::open(p, 0)
}

#[test]
fn open_empty_project_gets_first_floor() {
    let s = Survey::open(Project::new("New"), 0);
    assert_eq!(names(&s), vec!["Floor 1"]);
    assert_eq!(s.current(), 0);
    let f = s.current_floor();
    assert!(f.image_path.is_none() && f.drawing_path.is_none() && f.pdf_page.is_none());
    assert!(f.measurements.is_empty());
}

#[test]
fn open_keeps_start_in_range() {
    let mut p = Project::new("P");
    p.add_floor(Floor::new("A"));
    p.add_floor(Floor::new("B"));
    assert_eq!(Survey::open(p.clone(), 1).current(), 1);
    assert_eq!(Survey::open(p, 7).current(), 0);
}

#[test]
fn add_floor_appends_and_selects() {
    let mut s = three_floors();
    let name = s.add_floor();
    assert_eq!(name, "Floor 4");
    assert_eq!(names(&s), vec!["A", "B", "C", "Floor 4"]);
    assert_eq!(s.current(), 3);
}

#[test]
fn delete_middle_floor_shows_the_next() {
    let mut s = three_floors();
    assert!(s.select(1));
    assert!(s.delete_current());
    assert_eq!(names(&s), vec!["A", "C"]);
    assert_eq!(s.current(), 1);
    assert_eq!(s.current_floor().name, "C");
}

#[test]
fn delete_last_floor_shows_the_previous() {
    let mut s = three_floors();
    assert!(s.select(2));
    assert!(s.delete_current());
    assert_eq!(names(&s), vec!["A", "B"]);
    assert_eq!(s.current(), 1);
}

#[test]
fn the_only_floor_is_not_deleted() {
    let mut s = Survey::open(Project::new("P"), 0);
    assert!(!s.delete_current());
    assert_eq!(names(&s), vec!["Floor 1"]);
    assert_eq!(s.current(), 0);
}

#[test]
fn select_out_of_range_is_refused() {
    let mut s = three_floors();
    assert!(!s.select(3));
    assert_eq!(s.current(), 0);
}

#[test]
fn rename_current_trims_and_refuses_blank() {
    let mut s = three_floors();
    s.select(2);
    assert!(s.rename_current("  Attic "));
    assert!(!s.rename_current("   "));
    assert_eq!(names(&s), vec!["A", "B", "Attic"]);
}

#[test]
fn measurements_go_to_the_current_floor() {
    let mut s = three_floors();
    s.select(1);
    let m = Measurement::new(0, 0, "net".to_string(), "b".to_string(), 2412, 1, -50);
    let id = m.id.clone();
    s.add_measurement(m);
    assert_eq!(s.project().floors[1].measurements.len(), 1);
    assert!(s.project().floors[0].measurements.is_empty());
    s.remove_measurement(&id);
    assert!(s.project().floors[1].measurements.is_empty());
    s.add_measurement(Measurement::new(0, 0, "n".to_string(), "b".to_string(), 2412, 1, -50));
    s.clear_current_measurements();
    assert!(s.current_floor().measurements.is_empty());
}

#[test]
fn set_current_floor_replaces_only_it() {
    let mut s = three_floors();
    s.select(2);
    let mut f = s.current_floor().clone();
    f.image_path = Some("/plans/c.png".to_string());
    s.set_current_floor(f);
    assert_eq!(s.project().floors[2].image_path.as_deref(), Some("/plans/c.png"));
    assert!(s.project().floors[0].image_path.is_none());
}

#[test]
fn calibration_clicks_pick_a_then_b_then_restart() {
    let mut c = CalibrationClicks::new();
    assert_eq!(c.click((1, 2)), None);
    assert_eq!((c.a, c.b), (Some((1, 2)), None));
    assert_eq!(c.click((3, 4)), Some(((1, 2), (3, 4))));
    assert_eq!((c.a, c.b), (Some((1, 2)), Some((3, 4))));
    assert_eq!(c.click((5, 6)), None);
    assert_eq!((c.a, c.b), (Some((5, 6)), None));
}

#[test]
fn pdf_names_in_any_case() {
    assert!(is_pdf_path("/plans/floor.pdf"));
    assert!(is_pdf_path("/plans/FLOOR.PDF"));
    assert!(is_pdf_path("x.PdF"));
    assert!(!is_pdf_path("/plans/floor.png"));
    assert!(!is_pdf_path("pdf"));
    assert!(!is_pdf_path("floor_pdf"));
    for name in ["a.pdf", "B.PDF", "c.Pdf", "d.pdfx", "", ".pdf", "é.PDF"] {
        assert_eq!(is_pdf_path(name), name.to_lowercase().ends_with(".pdf"), "{name}");
    }
}
