use scrap::backend::Action;
use scrap::display::OutputDescriptor;
use scrap::enumerate::AdapterModel;
use scrap::enumerate::Displays;
use scrap::enumerate::OutputModel;
use scrap::enumerate::OutputProbe;
use scrap::enumerate::ProbeStep;
use scrap::enumerate::enumerate_all;
use scrap::status::CaptureError;
use scrap::status::E_ACCESSDENIED;

fn descriptor() -> OutputDescriptor {
    OutputDescriptor { left: 0, top: 0, right: 1920, bottom: 1080, rotation: 1, name: [0u16; 32] }
}

fn capable(output: u64, upgraded: u64) -> OutputModel {
    OutputModel { output, upgraded, duplicable: true, desc: descriptor() }
}

fn incapable(output: u64) -> OutputModel {
    OutputModel { output, upgraded: 0, duplicable: false, desc: descriptor() }
}

#[test]
fn factory_failure_propagates_translated() {
    let r = Displays::new(E_ACCESSDENIED, 99, None);
    assert!(matches!(r, Err(CaptureError::PermissionDenied)));
}

#[test]
fn one_capable_one_incapable_yields_exactly_one() {
    // One adapter with two outputs, only the first duplication-capable:
    // exactly one display comes out, for the capable output, and the
    // display index advances past both outputs before the adapter is left.
    let mut walker = Displays::new(0, 99, Some(1)).unwrap();

    let (step, acts) = walker.read_and_invalidate(&OutputProbe::Duplicable {
        output: 10,
        upgraded: 11,
        desc: descriptor(),
    });
    let display = match step {
        ProbeStep::Yielded(d) => d,
        ProbeStep::AdapterDone => panic!("expected a display"),
    };
    assert_eq!(display.output, 11);
    assert_eq!(display.adapter, 1);
    assert_eq!(walker.ndisplay, 1);
    assert_eq!(
        acts,
        vec![Action::ReleaseOutput { output: 10 }, Action::AddRefAdapter { adapter: 1 }]
    );

    let (step, acts) = walker.read_and_invalidate(&OutputProbe::Plain { output: 12 });
    assert!(matches!(step, ProbeStep::AdapterDone));
    assert_eq!(walker.ndisplay, 2);
    assert_eq!(walker.adapter, None);
    assert_eq!(
        acts,
        vec![Action::ReleaseOutput { output: 12 }, Action::ReleaseAdapter { adapter: 1 }]
    );

    walker.advance_adapter(None);
    assert_eq!(walker.nadapter, 1);
    assert_eq!(walker.ndisplay, 0);
    assert!(!walker.has_adapter());
}

#[test]
fn adapter_index_never_decreases() {
    let mut walker = Displays::new(0, 99, Some(1)).unwrap();
    assert_eq!(walker.nadapter, 0);
    let (step, _) = walker.read_and_invalidate(&OutputProbe::Missing);
    assert!(matches!(step, ProbeStep::AdapterDone));
    walker.advance_adapter(Some(2));
    assert_eq!(walker.nadapter, 1);
    let (_, _) = walker.read_and_invalidate(&OutputProbe::Missing);
    walker.advance_adapter(None);
    assert_eq!(walker.nadapter, 2);
}

#[test]
fn empty_adapters_are_skipped_without_yielding() {
    let adapters = vec![
        AdapterModel { id: 1, outputs: vec![] },
        AdapterModel { id: 2, outputs: vec![capable(20, 21)] },
        AdapterModel { id: 3, outputs: vec![] },
        AdapterModel { id: 4, outputs: vec![capable(40, 41)] },
    ];
    let displays = enumerate_all(99, &adapters);
    assert_eq!(displays.len(), 2);
    assert_eq!(displays[0].output, 21);
    assert_eq!(displays[0].adapter, 2);
    assert_eq!(displays[1].output, 41);
    assert_eq!(displays[1].adapter, 4);
}

#[test]
fn yield_is_adapter_major_display_minor() {
    // Capable outputs first on every adapter: the walk yields the sum of
    // capable outputs, ordered by adapter index then display index.
    let adapters = vec![
        AdapterModel { id: 1, outputs: vec![capable(10, 21), capable(11, 22)] },
        AdapterModel { id: 2, outputs: vec![capable(12, 31)] },
    ];
    let displays = enumerate_all(99, &adapters);
    assert_eq!(displays.len(), 3);
    let upgraded: Vec<u64> = displays.iter().map(|d| d.output).collect();
    assert_eq!(upgraded, vec![21, 22, 31]);
    assert_eq!(displays[0].adapter, 1);
    assert_eq!(displays[1].adapter, 1);
    assert_eq!(displays[2].adapter, 2);
}

#[test]
fn no_adapter_means_no_displays() {
    let displays = enumerate_all(99, &vec![]);
    assert_eq!(displays.len(), 0);
}

#[test]
fn an_incapable_output_ends_its_adapter() {
    // A display lacking duplication capability is treated like the end of
    // its adapter: later outputs of that adapter are never reached, while
    // the next adapter still is.
    let adapters = vec![
        AdapterModel { id: 1, outputs: vec![capable(10, 21), incapable(11), capable(12, 23)] },
        AdapterModel { id: 2, outputs: vec![capable(13, 31)] },
    ];
    let displays = enumerate_all(99, &adapters);
    let upgraded: Vec<u64> = displays.iter().map(|d| d.output).collect();
    assert_eq!(upgraded, vec![21, 31]);
}

#[test]
fn walker_release_includes_held_adapter() {
    let walker = Displays::new(0, 99, Some(5)).unwrap();
    assert_eq!(
        walker.release_actions(),
        vec![Action::ReleaseFactory { factory: 99 }, Action::ReleaseAdapter { adapter: 5 }]
    );
    let bare = Displays::new(0, 99, None).unwrap();
    assert_eq!(bare.release_actions(), vec![Action::ReleaseFactory { factory: 99 }]);
}
