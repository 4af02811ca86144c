use global_hotkey::hotkey::{Code, HotKey, Modifiers};
use window_hotkeys::bindings::{default_shortcut, Action, OsFamily};
use window_hotkeys::error::{HostFailure, ShortcutError};
use window_hotkeys::host::{Binding, HostOp};
use window_hotkeys::plan::{OnFailure, Outcome, Plan, Step};
use window_hotkeys::registration::{
    bind, bind_parsed, check_shortcuts_registered, plan_registration_check, plan_setup,
    setup_global_shortcuts, ShortcutSet,
};

const FAMILIES: [OsFamily; 3] = [OsFamily::MacOs, OsFamily::Windows, OsFamily::Linux];

const ACTIONS: [Action; 4] =
    [Action::ToggleWindow, Action::StartAudio, Action::Screenshot, Action::ToggleSystemAudio];

fn key(mods: Modifiers, code: Code) -> HotKey {
    HotKey::new(Some(mods), code)
}

fn expected(os: OsFamily, action: Action) -> HotKey {
    let primary = match os {
        OsFamily::MacOs => Modifiers::SUPER,
        _ => Modifiers::CONTROL,
    };
    match action {
        Action::ToggleWindow => key(primary, Code::Backslash),
        Action::StartAudio => key(primary | Modifiers::SHIFT, Code::KeyA),
        Action::Screenshot => key(primary | Modifiers::SHIFT, Code::KeyS),
        Action::ToggleSystemAudio => key(primary | Modifiers::SHIFT, Code::KeyM),
    }
}

fn some_keys() -> [HotKey; 4] {
    [
        key(Modifiers::ALT, Code::F1),
        key(Modifiers::ALT, Code::F2),
        key(Modifiers::ALT, Code::F3),
        key(Modifiers::ALT, Code::F4),
    ]
}

fn query(action: Action, shortcut: HotKey) -> Step {
    Step {
        op: HostOp::IsRegistered(Binding { action, shortcut }),
        on_failure: OnFailure::Stop { report: false },
    }
}

#[test]
fn every_default_combination_parses() {
    for os in FAMILIES {
        for action in ACTIONS {
            assert!(bind(os, action).is_ok());
        }
    }
}

#[test]
fn default_combinations_parse_to_their_keys() {
    for os in FAMILIES {
        for action in ACTIONS {
            assert_eq!(bind(os, action), Ok(Binding { action, shortcut: expected(os, action) }));
        }
    }
}

#[test]
fn bind_agrees_with_the_parser_of_the_hotkey_service() {
    for os in FAMILIES {
        for action in ACTIONS {
            let parsed: HotKey = default_shortcut(os, action).parse().unwrap();
            assert_eq!(bind(os, action).unwrap().shortcut, parsed);
        }
    }
}

#[test]
fn bind_parsed_keeps_a_parsed_combination() {
    let parsed = "alt+f1".parse::<HotKey>();
    assert_eq!(
        bind_parsed(OsFamily::Linux, Action::Screenshot, parsed),
        Ok(Binding { action: Action::Screenshot, shortcut: key(Modifiers::ALT, Code::F1) })
    );
}

#[test]
fn bind_parsed_turns_a_rejection_into_a_parse_error() {
    for text in ["", "ctrl+", "ctrl+shift", "ctrl+a+b", "ctrl+nosuchkey", "a+ctrl"] {
        let parsed = text.parse::<HotKey>();
        assert!(parsed.is_err());
        assert_eq!(
            bind_parsed(OsFamily::Windows, Action::StartAudio, parsed),
            Err(ShortcutError::Parse { os: OsFamily::Windows, action: Action::StartAudio })
        );
    }
}

#[test]
fn shortcut_set_gives_each_action_its_own_key() {
    let [toggle, audio, screenshot, system_audio] = some_keys();
    let set = ShortcutSet { toggle, audio, screenshot, system_audio };
    assert_eq!(
        set.binding(Action::ToggleWindow),
        Binding { action: Action::ToggleWindow, shortcut: toggle }
    );
    assert_eq!(
        set.binding(Action::StartAudio),
        Binding { action: Action::StartAudio, shortcut: audio }
    );
    assert_eq!(
        set.binding(Action::Screenshot),
        Binding { action: Action::Screenshot, shortcut: screenshot }
    );
    assert_eq!(
        set.binding(Action::ToggleSystemAudio),
        Binding { action: Action::ToggleSystemAudio, shortcut: system_audio }
    );
}

#[test]
fn setup_attaches_all_handlers_and_then_registers_all() {
    let [toggle, audio, screenshot, system_audio] = some_keys();
    let set = ShortcutSet { toggle, audio, screenshot, system_audio };
    let plan = plan_setup(&set);
    assert_eq!(plan.ending, Outcome::Completed);
    let mut expected_steps = Vec::new();
    for action in ACTIONS {
        expected_steps.push(Step {
            op: HostOp::AttachHandler(set.binding(action)),
            on_failure: OnFailure::Raise(HostFailure::Registration(action)),
        });
    }
    for action in ACTIONS {
        expected_steps.push(Step {
            op: HostOp::Register(set.binding(action)),
            on_failure: OnFailure::Raise(HostFailure::Registration(action)),
        });
    }
    assert_eq!(plan.steps, expected_steps);
}

#[test]
fn setup_global_shortcuts_plans_for_the_default_combinations() {
    for os in FAMILIES {
        let set = ShortcutSet {
            toggle: expected(os, Action::ToggleWindow),
            audio: expected(os, Action::StartAudio),
            screenshot: expected(os, Action::Screenshot),
            system_audio: expected(os, Action::ToggleSystemAudio),
        };
        assert_eq!(setup_global_shortcuts(os), plan_setup(&set));
    }
}

#[test]
fn check_asks_for_each_combination_in_order() {
    for os in FAMILIES {
        let plan = check_shortcuts_registered(os);
        assert_eq!(plan.ending, Outcome::Completed);
        let expected_steps: Vec<Step> =
            ACTIONS.iter().map(|action| query(*action, expected(os, *action))).collect();
        assert_eq!(plan.steps, expected_steps);
    }
}

#[test]
fn setup_and_check_work_on_the_same_combinations() {
    for os in FAMILIES {
        let setup = setup_global_shortcuts(os);
        let check = check_shortcuts_registered(os);
        for (position, action) in ACTIONS.iter().enumerate() {
            let binding = bind(os, *action).unwrap();
            assert_eq!(setup.steps[position].op, HostOp::AttachHandler(binding));
            assert_eq!(setup.steps[position + 4].op, HostOp::Register(binding));
            assert_eq!(check.steps[position].op, HostOp::IsRegistered(binding));
        }
    }
}

#[test]
fn check_plan_for_four_keys_completes() {
    let keys = some_keys().to_vec();
    let plan = plan_registration_check(OsFamily::Linux, &keys);
    assert_eq!(
        plan,
        Plan {
            steps: vec![
                query(Action::ToggleWindow, keys[0]),
                query(Action::StartAudio, keys[1]),
                query(Action::Screenshot, keys[2]),
                query(Action::ToggleSystemAudio, keys[3]),
            ],
            ending: Outcome::Completed,
        }
    );
}

#[test]
fn check_plan_for_fewer_keys_ends_in_the_parse_error() {
    let keys = some_keys();
    let endings = [
        Action::ToggleWindow,
        Action::StartAudio,
        Action::Screenshot,
        Action::ToggleSystemAudio,
    ];
    for parsed in 0..4 {
        let plan = plan_registration_check(OsFamily::MacOs, &keys[..parsed].to_vec());
        assert_eq!(plan.steps.len(), parsed);
        for (position, step) in plan.steps.iter().enumerate() {
            assert_eq!(*step, query(ACTIONS[position], keys[position]));
        }
        assert_eq!(
            plan.ending,
            Outcome::Failed(ShortcutError::Parse { os: OsFamily::MacOs, action: endings[parsed] })
        );
    }
}

#[test]
fn check_plan_ignores_keys_beyond_the_fourth() {
    let mut keys = some_keys().to_vec();
    let four = plan_registration_check(OsFamily::Linux, &keys);
    keys.push(key(Modifiers::ALT, Code::F5));
    assert_eq!(plan_registration_check(OsFamily::Linux, &keys), four);
}
