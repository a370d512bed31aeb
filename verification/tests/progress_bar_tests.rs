use drot::interactive::{ProgressInfo, RunPhase};
use drot::tui::bios_textbox::Area;
use drot::tui::panels::inset_body;
use drot::tui::progress_bar::{CAP_LEFT, CAP_RIGHT, CapsuleCell, CapsuleTone, capsule_cells, progress_capsule};

fn report(phase: RunPhase, percent: u8) -> Option<ProgressInfo> {
    Some(ProgressInfo {
        phase,
        percent,
        step_label: String::new(),
        analyzing_message: String::new(),
        activity_label: String::new(),
        elapsed_secs: None,
    })
}

fn text(cells: &[CapsuleCell]) -> String {
    cells.iter().map(|c| c.ch).collect()
}

fn capsule(before: usize, label: &str, after: usize) -> String {
    format!("{CAP_LEFT}{}{label}{}{CAP_RIGHT}", " ".repeat(before), " ".repeat(after))
}

#[test]
fn paints_full_width_without_panic() {
    for percent in [0u8, 42, 100] {
        let cells = progress_capsule(&report(RunPhase::Running, percent), 20);
        assert_eq!(cells.len(), 20);
    }
}

#[test]
fn capsule_fills_its_share_and_centres_the_percentage() {
    let cells = progress_capsule(&report(RunPhase::Running, 42), 20);
    assert_eq!(text(&cells), capsule(7, "42%", 8));
    assert_eq!(cells[0].tone, CapsuleTone::CapFill);
    assert_eq!(cells[1].tone, CapsuleTone::Fill);
    assert_eq!(cells[7].tone, CapsuleTone::Fill);
    assert_eq!(cells[8].tone, CapsuleTone::LabelOnFill);
    assert_eq!(cells[9].tone, CapsuleTone::LabelOnTrack);
    assert_eq!(cells[11].tone, CapsuleTone::Track);
    assert_eq!(cells[19].tone, CapsuleTone::CapTrack);

    let done = progress_capsule(&report(RunPhase::Complete, 100), 20);
    assert_eq!(text(&done), capsule(7, "100%", 7));
    assert_eq!(done[19].tone, CapsuleTone::CapFill);
    assert_eq!(done[10].tone, CapsuleTone::LabelOnFill);
}

#[test]
fn analysing_or_idle_shows_an_empty_track() {
    let analysing = progress_capsule(&report(RunPhase::Analyzing, 80), 10);
    assert_eq!(text(&analysing), capsule(3, "0%", 3));
    assert_eq!(analysing[0].tone, CapsuleTone::CapTrack);
    assert_eq!(analysing[4].tone, CapsuleTone::LabelOnTrack);
    assert_eq!(progress_capsule(&None, 10), analysing);

    let over = progress_capsule(&report(RunPhase::Running, 250), 10);
    assert_eq!(text(&over), capsule(2, "100%", 2));
}

#[test]
fn narrow_capsules_degrade() {
    assert!(capsule_cells(0, 50, 3).is_empty());
    assert_eq!(capsule_cells(2, 50, 3), vec![CapsuleCell { ch: ' ', tone: CapsuleTone::Fill }]);
    // The label is wider than a three-column capsule: only the caps and the track show.
    let tiny = capsule_cells(3, 100, 1);
    assert_eq!(text(&tiny), format!("{CAP_LEFT} {CAP_RIGHT}"));
    assert_eq!(tiny[2].tone, CapsuleTone::CapFill);
}

#[test]
fn tab_bodies_are_inset_from_the_border() {
    assert_eq!(inset_body(Area { x: 3, y: 4, width: 10, height: 6 }), Area { x: 4, y: 5, width: 8, height: 4 });
    assert_eq!(inset_body(Area { x: 0, y: 0, width: 1, height: 0 }), Area { x: 1, y: 1, width: 0, height: 0 });
}
