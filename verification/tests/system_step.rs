use std::marker::PhantomData;

use eldenring::ptr::NativePtr;
use eldenring::rva::RvaBundle;
use eldenring::system_step::{
    CSMoveMapListStep, CSMoveMapListStepState, CSSystemStep, CSSetFinishHelper, CSStepTaskFields,
    CSSystemStepState, EzChildStep, FD4StepBase, FD4TaskBase, GameRootStep, GameRootStepState,
    TitleFlowMode, TitleFlowStep, TitleFlowStepState, TitleStep, TitleStepState,
};

fn child<T>(addr: usize) -> EzChildStep<T> {
    EzChildStep {
        vftable: 0,
        task: NativePtr::new(addr),
        finish_latch: 0,
        finish_helper: CSSetFinishHelper { vftable: 0, _phantom_data: PhantomData },
    }
}

fn cs_task() -> CSStepTaskFields {
    CSStepTaskFields { finish_counter: 0, finish_requested: 0 }
}

fn address<T>(p: Option<NativePtr<T>>) -> Option<usize> {
    p.map(|p| p.address())
}

#[test]
fn native_ptr_rejects_null() {
    assert!(NativePtr::<FD4TaskBase>::new(0).is_none());
    assert_eq!(Some(0x1000), address(NativePtr::<FD4TaskBase>::new(0x1000)));
}

#[test]
fn child_step_task_returns_registered_pointer() {
    let empty: EzChildStep<FD4TaskBase> = child(0);
    assert_eq!(None, address(empty.task()));
    let set: EzChildStep<FD4TaskBase> = child(0x7ff0_1234);
    assert_eq!(Some(0x7ff0_1234), address(set.task()));
}

#[test]
fn game_root_step_accessors() {
    let step = GameRootStep {
        stepper: FD4StepBase {
            current_state: GameRootStepState::BootUpdate,
            requested_state: GameRootStepState::BootUpdate,
        },
        cs_task: cs_task(),
        msg_step: child(0x10),
        dummy_step: child(0),
        param_step: child(0x30),
        title_step: child(0x40),
        regulation_step: child(0x50),
    };
    assert_eq!(Some(0x10), address(step.msg_step()));
    assert_eq!(None, address(step.dummy_step()));
    assert_eq!(Some(0x30), address(step.param_step()));
    assert_eq!(Some(0x40), address(step.title_step()));
    assert_eq!(Some(0x50), address(step.regulation_step()));
}

#[test]
fn title_flow_step_views() {
    let step = TitleFlowStep {
        stepper: FD4StepBase {
            current_state: TitleFlowStepState::Wait,
            requested_state: TitleFlowStepState::Finish,
        },
        cs_task: cs_task(),
        flow_mode: 1,
        move_map_list_step: child(0x2000),
    };
    assert_eq!(TitleFlowMode::GameFlow, step.flow_mode());
    assert_eq!(Some(0x2000), address(step.move_map_list_step()));
    let other = TitleFlowStep { flow_mode: -7, ..step };
    assert_eq!(TitleFlowMode::Unknown(-7), other.flow_mode());

    let list = CSMoveMapListStep {
        stepper: FD4StepBase {
            current_state: CSMoveMapListStepState::Wait,
            requested_state: CSMoveMapListStepState::Wait,
        },
        cs_task: cs_task(),
        game_root_step: child(0x3000),
    };
    assert_eq!(Some(0x3000), address(list.game_root_step()));
}

#[test]
fn title_flow_mode_round_trips() {
    assert_eq!(TitleFlowMode::GameFlow, TitleFlowMode::from_raw(1));
    assert_eq!(1, TitleFlowMode::GameFlow.raw());
    for raw in [i32::MIN, -1, 0, 1, 2, 42, i32::MAX] {
        assert_eq!(raw, TitleFlowMode::from_raw(raw).raw());
    }
    assert_eq!(TitleFlowMode::Unknown(0), TitleFlowMode::from_raw(0));
    // `Unknown(1)` is not what `from_raw(1)` gives.
    assert_eq!(TitleFlowMode::GameFlow, TitleFlowMode::from_raw(TitleFlowMode::Unknown(1).raw()));
}

#[test]
fn step_state_indices() {
    assert_eq!(-1, CSSystemStepState::NotExecuting.raw());
    assert_eq!(0, CSSystemStepState::Init.raw());
    assert_eq!(11, CSSystemStepState::InitForGameFlow.raw());
    assert_eq!(20, CSSystemStepState::Finish.raw());
    assert_eq!(Some(CSSystemStepState::WaitForFileStep), CSSystemStepState::from_raw(19));
    assert_eq!(None, CSSystemStepState::from_raw(21));
    assert_eq!(None, CSSystemStepState::from_raw(-2));

    assert_eq!(2, TitleFlowStepState::Finish.raw());
    assert_eq!(None, TitleFlowStepState::from_raw(3));
    assert_eq!(4, CSMoveMapListStepState::Finish.raw());
    assert_eq!(Some(CSMoveMapListStepState::InitForData), CSMoveMapListStepState::from_raw(1));
    assert_eq!(10, GameRootStepState::Shutdown.raw());
    assert_eq!(Some(GameRootStepState::BootUpdate), GameRootStepState::from_raw(8));
    assert_eq!(11, TitleStepState::Finish.raw());
    assert_eq!(Some(TitleStepState::BeginXr117Dialog), TitleStepState::from_raw(1));
    assert_eq!(Some(TitleStepState::NotExecuting), TitleStepState::from_raw(-1));
}

#[test]
fn step_state_round_trips() {
    for raw in -3..=25 {
        if let Some(s) = CSSystemStepState::from_raw(raw) {
            assert_eq!(raw, s.raw());
        } else {
            assert!(raw < -1 || raw > 20);
        }
        if let Some(s) = TitleStepState::from_raw(raw) {
            assert_eq!(raw, s.raw());
        } else {
            assert!(raw < -1 || raw > 11);
        }
        if let Some(s) = GameRootStepState::from_raw(raw) {
            assert_eq!(raw, s.raw());
        } else {
            assert!(raw < -1 || raw > 10);
        }
    }
    let _ = TitleStep {
        stepper: FD4StepBase {
            current_state: TitleStepState::PlayGame,
            requested_state: TitleStepState::PlayGame,
        },
    };
}

#[test]
fn system_step_name_and_title_step_rvas() {
    assert_eq!("CSSystemStep", CSSystemStep::name());
    let rvas = RvaBundle { title_step_vmt: 0x2a4f_1c8, title_step_state_table: 0x3b10_040 };
    assert_eq!(0x2a4f_1c8, TitleStep::vtable_rva(&rvas));
    assert_eq!(0x3b10_040, TitleStep::state_table_rva(&rvas));
}
