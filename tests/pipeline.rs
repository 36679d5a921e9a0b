use simptui::equation::Equation;
use simptui::render::{
    active_indices, continues_batch, next_step, RenderAction, RenderOutcome, RenderStep, StepResult,
};
use std::collections::BTreeSet;

/// A stand-in for the file system and the two outside programs: it records
/// what it was asked to do and answers as told.
struct Fake {
    log: Vec<String>,
    files: BTreeSet<String>,
    dir_ok: bool,
    typeset_ok: bool,
    rasterizer_present: bool,
}

impl Fake {
    fn new() -> Fake {
        Fake { log: Vec::new(), files: BTreeSet::new(), dir_ok: true, typeset_ok: true, rasterizer_present: true }
    }

    fn perform(&mut self, a: &RenderAction) -> StepResult {
        let ok = |b: bool| if b { StepResult::Succeeded } else { StepResult::Failed };
        match a {
            RenderAction::CreateOutputDir => {
                self.log.push("mkdir".to_string());
                if self.dir_ok { StepResult::Succeeded } else { StepResult::Errored }
            }
            RenderAction::WriteFile { file, .. } => {
                self.log.push(format!("write {}", file));
                self.files.insert(file.clone());
                StepResult::Succeeded
            }
            RenderAction::RunTypesetter { source } => {
                self.log.push(format!("typeset {}", source));
                if self.typeset_ok {
                    self.files.insert(source.replace(".tex", ".pdf"));
                }
                ok(self.typeset_ok)
            }
            RenderAction::ProbeRasterizer => {
                self.log.push("probe".to_string());
                ok(self.rasterizer_present)
            }
            RenderAction::CheckExists { file } => ok(self.files.contains(file)),
            RenderAction::RunRasterizer { input, output } => {
                self.log.push(format!("rasterize {} {}", input, output));
                self.files.insert(output.clone());
                StepResult::Succeeded
            }
            RenderAction::RemoveFile { file } => {
                self.log.push(format!("remove {}", file));
                ok(self.files.remove(file))
            }
            RenderAction::Finish { .. } => StepResult::Succeeded,
        }
    }
}

fn render(fake: &mut Fake, eq: &Equation, delete: bool) -> RenderOutcome {
    let mut step = eq.first_step();
    loop {
        match eq.action(step, "#00ff00") {
            RenderAction::Finish { outcome } => return outcome,
            a => {
                let res = fake.perform(&a);
                step = next_step(step, res, delete);
            }
        }
    }
}

#[test]
fn inactive_equation_does_nothing() {
    let mut fake = Fake::new();
    let eq = Equation::new(false, "off", "x");
    assert_eq!(render(&mut fake, &eq, true), RenderOutcome::Skipped);
    assert!(fake.log.is_empty());
    assert!(fake.files.is_empty());
}

#[test]
fn full_render_produces_three_files() {
    let mut fake = Fake::new();
    let eq = Equation::new(true, "e1", "x");
    assert_eq!(render(&mut fake, &eq, false), RenderOutcome::Rendered);
    assert_eq!(
        fake.log,
        vec!["mkdir", "write e1.tex", "typeset e1.tex", "probe", "rasterize e1.pdf e1.svg"]
    );
    let want: BTreeSet<String> = ["e1.tex", "e1.pdf", "e1.svg"].iter().map(|s| s.to_string()).collect();
    assert_eq!(fake.files, want);
}

#[test]
fn rendering_twice_overwrites_the_same_files() {
    let mut fake = Fake::new();
    let eq = Equation::new(true, "e1", "x");
    render(&mut fake, &eq, false);
    let first = fake.files.clone();
    let first_log = fake.log.clone();
    fake.log.clear();
    render(&mut fake, &eq, false);
    assert_eq!(fake.files, first);
    assert_eq!(fake.log, first_log);
}

#[test]
fn cleanup_removes_intermediates_and_tolerates_absence() {
    let mut fake = Fake::new();
    let eq = Equation::new(true, "e2", "y");
    assert_eq!(render(&mut fake, &eq, true), RenderOutcome::Rendered);
    let want: BTreeSet<String> = ["e2.svg"].iter().map(|s| s.to_string()).collect();
    assert_eq!(fake.files, want);
    // removal of files that are already gone changes nothing
    let s = next_step(RenderStep::RemovingSource(RenderOutcome::Rendered), StepResult::Failed, true);
    assert_eq!(s, RenderStep::RemovingIntermediate(RenderOutcome::Rendered));
    let s = next_step(s, StepResult::Errored, true);
    assert_eq!(s, RenderStep::Finished(RenderOutcome::Rendered));
}

#[test]
fn typeset_failure_is_isolated_in_a_batch() {
    let eqs = vec![
        Equation::new(true, "a", "1"),
        Equation::new(true, "b", "2"),
        Equation::new(true, "c", "3"),
    ];
    let mut fake = Fake::new();
    let mut outcomes = Vec::new();
    for i in active_indices(&eqs) {
        fake.typeset_ok = i != 1;
        let o = render(&mut fake, &eqs[i], false);
        outcomes.push(o);
        if !continues_batch(o) {
            break;
        }
    }
    assert_eq!(
        outcomes,
        vec![RenderOutcome::Rendered, RenderOutcome::TypesetFailed, RenderOutcome::Rendered]
    );
    assert!(!fake.log.contains(&"rasterize b.pdf b.svg".to_string()));
    assert!(fake.log.contains(&"typeset c.tex".to_string()));
}

#[test]
fn unusable_directory_stops_the_batch() {
    let eqs = vec![Equation::new(true, "a", "1"), Equation::new(true, "b", "2")];
    let mut fake = Fake::new();
    fake.dir_ok = false;
    let mut outcomes = Vec::new();
    for i in active_indices(&eqs) {
        let o = render(&mut fake, &eqs[i], false);
        outcomes.push(o);
        if !continues_batch(o) {
            break;
        }
    }
    assert_eq!(outcomes, vec![RenderOutcome::Fatal]);
    assert_eq!(fake.log, vec!["mkdir"]);
}

#[test]
fn missing_rasterizer_still_cleans_up() {
    let mut fake = Fake::new();
    fake.rasterizer_present = false;
    let eq = Equation::new(true, "m", "z");
    assert_eq!(render(&mut fake, &eq, true), RenderOutcome::RasterizerMissing);
    assert!(fake.files.is_empty());
}

#[test]
fn missing_intermediate_is_reported() {
    let s = next_step(RenderStep::LocatingIntermediate, StepResult::Failed, false);
    assert_eq!(s, RenderStep::Finished(RenderOutcome::IntermediateMissing));
    let s = next_step(RenderStep::Rasterizing, StepResult::Failed, false);
    assert_eq!(s, RenderStep::Finished(RenderOutcome::RasterizeFailed));
    let s = next_step(RenderStep::Typesetting, StepResult::Errored, false);
    assert_eq!(s, RenderStep::Finished(RenderOutcome::Fatal));
}

#[test]
fn active_indices_skip_inactive() {
    let eqs = vec![
        Equation::new(false, "a", "1"),
        Equation::new(true, "b", "2"),
        Equation::new(false, "c", "3"),
        Equation::new(true, "d", "4"),
    ];
    assert_eq!(active_indices(&eqs), vec![1, 3]);
    assert!(active_indices(&Vec::new()).is_empty());
}

#[test]
fn latex_uses_bare_colour_and_body() {
    let eq = Equation::new(true, "e", "a^2 + b^2");
    let doc = eq.generate_latex("##AbC123");
    let plain = eq.generate_latex("AbC123");
    assert_eq!(doc, plain);
    assert!(doc.starts_with("\\documentclass[border=1pt]{standalone}\n"));
    assert!(doc.contains("\\definecolor{equationcolor}{HTML}{AbC123}\n"));
    assert!(doc.contains("\\textcolor{equationcolor}{$ a^2 + b^2 $}}\n"));
    assert!(doc.contains("\\dimen0=12mm"));
    assert!(doc.contains("\\dp0=5mm"));
    assert!(doc.ends_with("\\end{document}"));
}
