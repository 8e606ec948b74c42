use probe::supervision::{
    rtt_had_data, run_supervision, supervision_step, finish_plan, poll_interval_ms, CoreStatus,
    Directive, PollObservation,
};

fn quiet(status: CoreStatus) -> PollObservation {
    PollObservation { exit_requested: false, status, had_rtt_data: false }
}

#[test]
fn poll_interval_is_one_ms_after_data_else_hundred() {
    assert_eq!(poll_interval_ms(true), 1);
    assert_eq!(poll_interval_ms(false), 100);
}

#[test]
fn step_paces_adaptively_while_running() {
    let d = supervision_step(false, CoreStatus::Running, true, false);
    assert_eq!(d, Directive::Continue { sleep_ms: 1 });
    let d = supervision_step(false, CoreStatus::Running, false, true);
    assert_eq!(d, Directive::Continue { sleep_ms: 100 });
    let d = supervision_step(false, CoreStatus::Sleeping, false, false);
    assert_eq!(d, Directive::Continue { sleep_ms: 100 });
}

#[test]
fn step_reports_target_halt_before_pacing() {
    let d = supervision_step(false, CoreStatus::Halted, true, false);
    assert_eq!(d, Directive::TargetHalted);
}

#[test]
fn step_honours_the_exit_flag_first() {
    let d = supervision_step(true, CoreStatus::Halted, true, true);
    assert_eq!(
        d,
        Directive::UserExit { halt_timeout_ms: 1000, print_stacktrace: true }
    );
    let d = supervision_step(true, CoreStatus::Running, false, false);
    assert_eq!(
        d,
        Directive::UserExit { halt_timeout_ms: 1000, print_stacktrace: false }
    );
}

#[test]
fn interrupt_of_a_never_halting_target_halts_exactly_once() {
    // A stub core that never halts; the exit flag rises at the fourth poll.
    let observations = vec![
        quiet(CoreStatus::Running),
        quiet(CoreStatus::Running),
        quiet(CoreStatus::Running),
        PollObservation {
            exit_requested: true,
            status: CoreStatus::Running,
            had_rtt_data: false,
        },
    ];

    let outcome = run_supervision(&observations).expect("the loop must end");
    assert!(outcome.user_halted);
    assert_eq!(outcome.iterations, 4);

    // Driving the step decision directly: exactly one halt request comes out.
    let mut halt_requests = 0;
    for observation in &observations {
        let directive = supervision_step(
            observation.exit_requested,
            observation.status,
            observation.had_rtt_data,
            false,
        );
        match directive {
            Directive::UserExit { halt_timeout_ms, .. } => {
                assert_eq!(halt_timeout_ms, 1000);
                halt_requests += 1;
                break;
            }
            Directive::TargetHalted => panic!("the stub core never halts"),
            Directive::Continue { .. } => {}
        }
    }
    assert_eq!(halt_requests, 1);
}

#[test]
fn target_halt_after_two_running_polls_ends_the_loop() {
    let observations = vec![
        quiet(CoreStatus::Running),
        quiet(CoreStatus::Running),
        quiet(CoreStatus::Halted),
    ];
    let outcome = run_supervision(&observations).expect("the loop must end");
    assert!(!outcome.user_halted);
    assert_eq!(outcome.iterations, 3);
}

#[test]
fn supervision_without_a_deciding_event_keeps_running() {
    let observations = vec![quiet(CoreStatus::Running); 5];
    assert_eq!(run_supervision(&observations), None);
}

#[test]
fn rtt_data_detection_needs_a_nonempty_payload() {
    assert!(!rtt_had_data(&vec![]));
    assert!(!rtt_had_data(&vec![vec![], vec![]]));
    assert!(rtt_had_data(&vec![vec![], vec![0x68, 0x69]]));
}

#[test]
fn finish_plan_halts_and_restores_default_interrupt() {
    // After a user interrupt the core is halted with a one-second timeout.
    let plan = finish_plan(true, false);
    assert!(plan.halt_core);
    assert_eq!(plan.halt_timeout_ms, 1000);
    assert!(!plan.print_stacktrace);
    // The default interrupt behaviour returns, so a second interrupt
    // terminates the process.
    assert!(plan.restore_default_interrupt);

    let plan = finish_plan(true, true);
    assert!(plan.print_stacktrace);

    // A target halt needs no halt request and no extra trace.
    let plan = finish_plan(false, true);
    assert!(!plan.halt_core);
    assert!(!plan.print_stacktrace);
    assert!(plan.restore_default_interrupt);
}
