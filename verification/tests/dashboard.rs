use sgxtop::parse::{parse_enclaves, parse_global};
use sgxtop::render::{header_text, render_frame, row_text};
use sgxtop::{Enclave, EnclaveState, KeyPress, Memory, RateTracker, UiAction, UiEvent, UiState};

#[test]
fn header_columns() {
    assert_eq!(
        header_text(),
        "     EID      PID     VIRT    EADDs      RSS     SWAP       VA      state Command"
    );
}

#[test]
fn row_layout() {
    let e = Enclave {
        pid: 100,
        eid: 7,
        virt: Memory(4096),
        eadds: Memory(200),
        rss: Memory(160),
        va: Memory(20),
        swap: Memory(0),
        state: EnclaveState(1),
    };
    assert_eq!(
        row_text(&e, "app"),
        "       7      100       4M     200K     160K       0K      20K       INIT app\n\r"
    );
}

#[test]
fn first_and_second_tick_of_a_session() {
    // First tick.
    let g1 = parse_global(b"5 2 100 50 1000 10 200 30 20 5\n").unwrap();
    let enclaves = parse_enclaves(b"100 7 4194304 50 40 5 1 0\n").unwrap();
    let mut tracker = RateTracker::new();
    let r1 = tracker.observe(&g1);
    let commands = vec![String::from("app")];
    let f1 = render_frame(&g1, &r1, &enclaves, &commands);

    assert_eq!(
        f1.summary[0],
        "3 enclaves running, total 5 enclaves created\n\r"
    );
    assert_eq!(f1.summary[1], "eadd       0K/s, eremove       0K/s \n\r");
    assert_eq!(f1.summary[2], "ewb       0K/s, eldu       0K/s \n\r");
    assert_eq!(
        f1.summary[3],
        "EPC mem:       3M total,     800K free,       3M used,      40K VA\n\r"
    );
    assert_eq!(f1.summary[4], "Swap:       0K\n\r");
    assert_eq!(f1.rows.len(), 1);
    assert_eq!(
        f1.rows[0],
        "       7      100       4M     200K     160K       0K      20K       INIT app\n\r"
    );

    // Second tick: pages-alloced raised from 100 to 150.
    let g2 = parse_global(b"5 2 150 50 1000 10 200 30 20 5\n").unwrap();
    let r2 = tracker.observe(&g2);
    let f2 = render_frame(&g2, &r2, &enclaves, &commands);
    assert_eq!(f2.summary[1], "eadd     200K/s, eremove       0K/s \n\r");
}

#[test]
fn tick_redraws_while_running() {
    assert_eq!(
        sgxtop::ui::step(UiState::Running, UiEvent::Tick),
        (UiState::Running, UiAction::Redraw)
    );
}

#[test]
fn quit_key_terminates_and_restores() {
    assert_eq!(
        sgxtop::ui::step(UiState::Running, UiEvent::Input(KeyPress::Plain('q'))),
        (UiState::Terminated, UiAction::Restore)
    );
}

#[test]
fn interrupt_key_terminates_and_restores() {
    assert_eq!(
        sgxtop::ui::step(UiState::Running, UiEvent::Input(KeyPress::Ctrl('c'))),
        (UiState::Terminated, UiAction::Restore)
    );
}

#[test]
fn other_keys_are_ignored() {
    assert_eq!(
        sgxtop::ui::step(UiState::Running, UiEvent::Input(KeyPress::Plain('x'))),
        (UiState::Running, UiAction::Ignore)
    );
    assert_eq!(
        sgxtop::ui::step(UiState::Running, UiEvent::Input(KeyPress::Ctrl('q'))),
        (UiState::Running, UiAction::Ignore)
    );
    assert_eq!(
        sgxtop::ui::step(UiState::Running, UiEvent::Input(KeyPress::Other)),
        (UiState::Running, UiAction::Ignore)
    );
}

#[test]
fn terminated_state_is_absorbing() {
    assert_eq!(
        sgxtop::ui::step(UiState::Terminated, UiEvent::Tick),
        (UiState::Terminated, UiAction::Ignore)
    );
    assert_eq!(
        sgxtop::ui::step(UiState::Terminated, UiEvent::Input(KeyPress::Plain('q'))),
        (UiState::Terminated, UiAction::Ignore)
    );
}
