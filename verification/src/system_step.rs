use core::marker::PhantomData;
use vstd::prelude::*;

use crate::ptr::NativePtr;
use crate::rva::RvaBundle;

verus! {

/// Native `FD4::FD4TaskBase` header; only the vtable prefix is modeled, as
/// step wrappers hold tasks of this type by pointer only.
pub struct FD4TaskBase {
    pub vftable: usize,
}

/// State words of the FD4 stepper base shared by every step: the state the
/// step is executing and the state it was asked to move to.
pub struct FD4StepBase<S> {
    pub current_state: S,
    pub requested_state: S,
}

/// Common layout of `CS::EzChildStep<T>` task-owner fields.
pub struct EzChildStep<T> {
    pub vftable: usize,
    /// Child step task registered through `EzChildStepBase::RegisterStepTask`.
    pub task: Option<NativePtr<T>>,
    /// Latches after `EzChildStepBase::RequestFinish` has invoked the finish helper.
    pub finish_latch: u8,
    pub finish_helper: CSSetFinishHelper<T>,
}

impl<T> EzChildStep<T> {
    /// The registered child task, if any.
    pub fn task(&self) -> (r: Option<NativePtr<T>>)
        ensures
            r == self.task,
    {
        self.task
    }
}

/// `CS::CSSetFinishHelper<T>` object stored inside each child-step wrapper.
pub struct CSSetFinishHelper<T> {
    pub vftable: usize,
    pub _phantom_data: PhantomData<T>,
}

/// State indices for `CS::CSSystemStep`.
///
/// Variant order follows the native `CSSystemStep::STEP_*` labels.
///
/// The native stepper stores the state as an `i32`: `NotExecuting` is `-1`
/// and the remaining variants count up from `0` in declaration order.
#[derive(Clone, Copy, Debug, PartialEq, Eq, Hash, Structural)]
pub enum CSSystemStepState {
    NotExecuting,
    Init,
    InitForBootPhase1,
    WaitForBootPhase1,
    InitForBootPhase2,
    WaitForBootPhase2,
    InitForBootPhase3,
    WaitForBootPhase3,
    InitForBootPhase4,
    WaitForBootPhase4,
    InitForBootPhase5,
    WaitForBootPhase5,
    InitForGameFlow,
    WaitForGameFlow,
    FinishForGameFlow,
    WaitForPreGraphicsStep,
    WaitForGraphicsStep,
    WaitForPadStep,
    WaitForResStep,
    WaitForSoundStep,
    WaitForFileStep,
    Finish,
}

impl CSSystemStepState {
    /// Native `i32` index of this state.
    pub open spec fn index(self) -> i32 {
        match self {
            CSSystemStepState::NotExecuting => -1i32,
            CSSystemStepState::Init => 0i32,
            CSSystemStepState::InitForBootPhase1 => 1i32,
            CSSystemStepState::WaitForBootPhase1 => 2i32,
            CSSystemStepState::InitForBootPhase2 => 3i32,
            CSSystemStepState::WaitForBootPhase2 => 4i32,
            CSSystemStepState::InitForBootPhase3 => 5i32,
            CSSystemStepState::WaitForBootPhase3 => 6i32,
            CSSystemStepState::InitForBootPhase4 => 7i32,
            CSSystemStepState::WaitForBootPhase4 => 8i32,
            CSSystemStepState::InitForBootPhase5 => 9i32,
            CSSystemStepState::WaitForBootPhase5 => 10i32,
            CSSystemStepState::InitForGameFlow => 11i32,
            CSSystemStepState::WaitForGameFlow => 12i32,
            CSSystemStepState::FinishForGameFlow => 13i32,
            CSSystemStepState::WaitForPreGraphicsStep => 14i32,
            CSSystemStepState::WaitForGraphicsStep => 15i32,
            CSSystemStepState::WaitForPadStep => 16i32,
            CSSystemStepState::WaitForResStep => 17i32,
            CSSystemStepState::WaitForSoundStep => 18i32,
            CSSystemStepState::WaitForFileStep => 19i32,
            CSSystemStepState::Finish => 20i32,
        }
    }

    /// The state whose native index is `raw`, if any.
    pub open spec fn of_index(raw: i32) -> Option<Self> {
        if raw == -1 {
            Some(CSSystemStepState::NotExecuting)
        } else if raw == 0 {
            Some(CSSystemStepState::Init)
        } else if raw == 1 {
            Some(CSSystemStepState::InitForBootPhase1)
        } else if raw == 2 {
            Some(CSSystemStepState::WaitForBootPhase1)
        } else if raw == 3 {
            Some(CSSystemStepState::InitForBootPhase2)
        } else if raw == 4 {
            Some(CSSystemStepState::WaitForBootPhase2)
        } else if raw == 5 {
            Some(CSSystemStepState::InitForBootPhase3)
        } else if raw == 6 {
            Some(CSSystemStepState::WaitForBootPhase3)
        } else if raw == 7 {
            Some(CSSystemStepState::InitForBootPhase4)
        } else if raw == 8 {
            Some(CSSystemStepState::WaitForBootPhase4)
        } else if raw == 9 {
            Some(CSSystemStepState::InitForBootPhase5)
        } else if raw == 10 {
            Some(CSSystemStepState::WaitForBootPhase5)
        } else if raw == 11 {
            Some(CSSystemStepState::InitForGameFlow)
        } else if raw == 12 {
            Some(CSSystemStepState::WaitForGameFlow)
        } else if raw == 13 {
            Some(CSSystemStepState::FinishForGameFlow)
        } else if raw == 14 {
            Some(CSSystemStepState::WaitForPreGraphicsStep)
        } else if raw == 15 {
            Some(CSSystemStepState::WaitForGraphicsStep)
        } else if raw == 16 {
            Some(CSSystemStepState::WaitForPadStep)
        } else if raw == 17 {
            Some(CSSystemStepState::WaitForResStep)
        } else if raw == 18 {
            Some(CSSystemStepState::WaitForSoundStep)
        } else if raw == 19 {
            Some(CSSystemStepState::WaitForFileStep)
        } else if raw == 20 {
            Some(CSSystemStepState::Finish)
        } else {
            None
        }
    }

    /// Native `i32` index of this state.
    pub fn raw(self) -> (r: i32)
        ensures
            r == self.index(),
    {
        match self {
            CSSystemStepState::NotExecuting => -1,
            CSSystemStepState::Init => 0,
            CSSystemStepState::InitForBootPhase1 => 1,
            CSSystemStepState::WaitForBootPhase1 => 2,
            CSSystemStepState::InitForBootPhase2 => 3,
            CSSystemStepState::WaitForBootPhase2 => 4,
            CSSystemStepState::InitForBootPhase3 => 5,
            CSSystemStepState::WaitForBootPhase3 => 6,
            CSSystemStepState::InitForBootPhase4 => 7,
            CSSystemStepState::WaitForBootPhase4 => 8,
            CSSystemStepState::InitForBootPhase5 => 9,
            CSSystemStepState::WaitForBootPhase5 => 10,
            CSSystemStepState::InitForGameFlow => 11,
            CSSystemStepState::WaitForGameFlow => 12,
            CSSystemStepState::FinishForGameFlow => 13,
            CSSystemStepState::WaitForPreGraphicsStep => 14,
            CSSystemStepState::WaitForGraphicsStep => 15,
            CSSystemStepState::WaitForPadStep => 16,
            CSSystemStepState::WaitForResStep => 17,
            CSSystemStepState::WaitForSoundStep => 18,
            CSSystemStepState::WaitForFileStep => 19,
            CSSystemStepState::Finish => 20,
        }
    }

    /// The state with native index `raw`, or `None` outside `-1..=20`.
    pub fn from_raw(raw: i32) -> (r: Option<Self>)
        ensures
            r == Self::of_index(raw),
    {
        match raw {
            -1 => Some(CSSystemStepState::NotExecuting),
            0 => Some(CSSystemStepState::Init),
            1 => Some(CSSystemStepState::InitForBootPhase1),
            2 => Some(CSSystemStepState::WaitForBootPhase1),
            3 => Some(CSSystemStepState::InitForBootPhase2),
            4 => Some(CSSystemStepState::WaitForBootPhase2),
            5 => Some(CSSystemStepState::InitForBootPhase3),
            6 => Some(CSSystemStepState::WaitForBootPhase3),
            7 => Some(CSSystemStepState::InitForBootPhase4),
            8 => Some(CSSystemStepState::WaitForBootPhase4),
            9 => Some(CSSystemStepState::InitForBootPhase5),
            10 => Some(CSSystemStepState::WaitForBootPhase5),
            11 => Some(CSSystemStepState::InitForGameFlow),
            12 => Some(CSSystemStepState::WaitForGameFlow),
            13 => Some(CSSystemStepState::FinishForGameFlow),
            14 => Some(CSSystemStepState::WaitForPreGraphicsStep),
            15 => Some(CSSystemStepState::WaitForGraphicsStep),
            16 => Some(CSSystemStepState::WaitForPadStep),
            17 => Some(CSSystemStepState::WaitForResStep),
            18 => Some(CSSystemStepState::WaitForSoundStep),
            19 => Some(CSSystemStepState::WaitForFileStep),
            20 => Some(CSSystemStepState::Finish),
            _ => None,
        }
    }

    /// The states in the order they are declared.
    pub open spec fn declared_order() -> Seq<Self> {
        seq![
            CSSystemStepState::NotExecuting,
            CSSystemStepState::Init,
            CSSystemStepState::InitForBootPhase1,
            CSSystemStepState::WaitForBootPhase1,
            CSSystemStepState::InitForBootPhase2,
            CSSystemStepState::WaitForBootPhase2,
            CSSystemStepState::InitForBootPhase3,
            CSSystemStepState::WaitForBootPhase3,
            CSSystemStepState::InitForBootPhase4,
            CSSystemStepState::WaitForBootPhase4,
            CSSystemStepState::InitForBootPhase5,
            CSSystemStepState::WaitForBootPhase5,
            CSSystemStepState::InitForGameFlow,
            CSSystemStepState::WaitForGameFlow,
            CSSystemStepState::FinishForGameFlow,
            CSSystemStepState::WaitForPreGraphicsStep,
            CSSystemStepState::WaitForGraphicsStep,
            CSSystemStepState::WaitForPadStep,
            CSSystemStepState::WaitForResStep,
            CSSystemStepState::WaitForSoundStep,
            CSSystemStepState::WaitForFileStep,
            CSSystemStepState::Finish,
        ]
    }

    /// Native indices follow declaration order: the state declared at position
    /// `i` has index `i - 1`, so `NotExecuting` is `-1` and each state's index
    /// is one more than that of the state declared before it.
    pub proof fn lemma_index_follows_declaration_order(i: int)
        requires
            0 <= i < 22,
        ensures
            Self::declared_order().len() == 22,
            Self::declared_order()[i].index() == i - 1,
            i + 1 < 22 ==> Self::declared_order()[i + 1].index() == Self::declared_order()[i].index() + 1,
            Self::of_index((i - 1) as i32) == Some(Self::declared_order()[i]),
    {
        if i == 0 {
            assert(Self::declared_order()[0] == CSSystemStepState::NotExecuting);
        } else if i == 1 {
            assert(Self::declared_order()[1] == CSSystemStepState::Init);
        } else if i == 2 {
            assert(Self::declared_order()[2] == CSSystemStepState::InitForBootPhase1);
        } else if i == 3 {
            assert(Self::declared_order()[3] == CSSystemStepState::WaitForBootPhase1);
        } else if i == 4 {
            assert(Self::declared_order()[4] == CSSystemStepState::InitForBootPhase2);
        } else if i == 5 {
            assert(Self::declared_order()[5] == CSSystemStepState::WaitForBootPhase2);
        } else if i == 6 {
            assert(Self::declared_order()[6] == CSSystemStepState::InitForBootPhase3);
        } else if i == 7 {
            assert(Self::declared_order()[7] == CSSystemStepState::WaitForBootPhase3);
        } else if i == 8 {
            assert(Self::declared_order()[8] == CSSystemStepState::InitForBootPhase4);
        } else if i == 9 {
            assert(Self::declared_order()[9] == CSSystemStepState::WaitForBootPhase4);
        } else if i == 10 {
            assert(Self::declared_order()[10] == CSSystemStepState::InitForBootPhase5);
        } else if i == 11 {
            assert(Self::declared_order()[11] == CSSystemStepState::WaitForBootPhase5);
        } else if i == 12 {
            assert(Self::declared_order()[12] == CSSystemStepState::InitForGameFlow);
        } else if i == 13 {
            assert(Self::declared_order()[13] == CSSystemStepState::WaitForGameFlow);
        } else if i == 14 {
            assert(Self::declared_order()[14] == CSSystemStepState::FinishForGameFlow);
        } else if i == 15 {
            assert(Self::declared_order()[15] == CSSystemStepState::WaitForPreGraphicsStep);
        } else if i == 16 {
            assert(Self::declared_order()[16] == CSSystemStepState::WaitForGraphicsStep);
        } else if i == 17 {
            assert(Self::declared_order()[17] == CSSystemStepState::WaitForPadStep);
        } else if i == 18 {
            assert(Self::declared_order()[18] == CSSystemStepState::WaitForResStep);
        } else if i == 19 {
            assert(Self::declared_order()[19] == CSSystemStepState::WaitForSoundStep);
        } else if i == 20 {
            assert(Self::declared_order()[20] == CSSystemStepState::WaitForFileStep);
        } else if i == 21 {
            assert(Self::declared_order()[21] == CSSystemStepState::Finish);
        }
    }

    /// Every state is declared exactly once.
    pub proof fn lemma_declared_order_lists_every_state(s: Self, i: int, j: int)
        ensures
            Self::declared_order().contains(s),
            0 <= i < j < 22 ==> Self::declared_order()[i] != Self::declared_order()[j],
    {
        match s {
            CSSystemStepState::NotExecuting => assert(Self::declared_order()[0] == s),
            CSSystemStepState::Init => assert(Self::declared_order()[1] == s),
            CSSystemStepState::InitForBootPhase1 => assert(Self::declared_order()[2] == s),
            CSSystemStepState::WaitForBootPhase1 => assert(Self::declared_order()[3] == s),
            CSSystemStepState::InitForBootPhase2 => assert(Self::declared_order()[4] == s),
            CSSystemStepState::WaitForBootPhase2 => assert(Self::declared_order()[5] == s),
            CSSystemStepState::InitForBootPhase3 => assert(Self::declared_order()[6] == s),
            CSSystemStepState::WaitForBootPhase3 => assert(Self::declared_order()[7] == s),
            CSSystemStepState::InitForBootPhase4 => assert(Self::declared_order()[8] == s),
            CSSystemStepState::WaitForBootPhase4 => assert(Self::declared_order()[9] == s),
            CSSystemStepState::InitForBootPhase5 => assert(Self::declared_order()[10] == s),
            CSSystemStepState::WaitForBootPhase5 => assert(Self::declared_order()[11] == s),
            CSSystemStepState::InitForGameFlow => assert(Self::declared_order()[12] == s),
            CSSystemStepState::WaitForGameFlow => assert(Self::declared_order()[13] == s),
            CSSystemStepState::FinishForGameFlow => assert(Self::declared_order()[14] == s),
            CSSystemStepState::WaitForPreGraphicsStep => assert(Self::declared_order()[15] == s),
            CSSystemStepState::WaitForGraphicsStep => assert(Self::declared_order()[16] == s),
            CSSystemStepState::WaitForPadStep => assert(Self::declared_order()[17] == s),
            CSSystemStepState::WaitForResStep => assert(Self::declared_order()[18] == s),
            CSSystemStepState::WaitForSoundStep => assert(Self::declared_order()[19] == s),
            CSSystemStepState::WaitForFileStep => assert(Self::declared_order()[20] == s),
            CSSystemStepState::Finish => assert(Self::declared_order()[21] == s),
        }
        if 0 <= i < j < 22 {
            Self::lemma_index_follows_declaration_order(i);
            Self::lemma_index_follows_declaration_order(j);
        }
    }

    /// Reading back the native index of a state gives the state again, an
    /// index names a state exactly when it lies in `-1..=20`, and the state it
    /// names carries that index.
    pub proof fn lemma_index_round_trip(s: Self, raw: i32)
        ensures
            Self::of_index(s.index()) == Some(s),
            -1 <= s.index() <= 20,
            Self::of_index(raw) is Some <==> -1 <= raw <= 20,
            Self::of_index(raw) matches Some(t) ==> t.index() == raw,
    {
    }
}

/// State indices for `CS::TitleFlowStep`.
///
/// Variant order follows the native `TitleFlowStep::STEP_*` labels.
///
/// The native stepper stores the state as an `i32`: `NotExecuting` is `-1`
/// and the remaining variants count up from `0` in declaration order.
#[derive(Clone, Copy, Debug, PartialEq, Eq, Hash, Structural)]
pub enum TitleFlowStepState {
    NotExecuting,
    Init,
    Wait,
    Finish,
}

impl TitleFlowStepState {
    /// Native `i32` index of this state.
    pub open spec fn index(self) -> i32 {
        match self {
            TitleFlowStepState::NotExecuting => -1i32,
            TitleFlowStepState::Init => 0i32,
            TitleFlowStepState::Wait => 1i32,
            TitleFlowStepState::Finish => 2i32,
        }
    }

    /// The state whose native index is `raw`, if any.
    pub open spec fn of_index(raw: i32) -> Option<Self> {
        if raw == -1 {
            Some(TitleFlowStepState::NotExecuting)
        } else if raw == 0 {
            Some(TitleFlowStepState::Init)
        } else if raw == 1 {
            Some(TitleFlowStepState::Wait)
        } else if raw == 2 {
            Some(TitleFlowStepState::Finish)
        } else {
            None
        }
    }

    /// Native `i32` index of this state.
    pub fn raw(self) -> (r: i32)
        ensures
            r == self.index(),
    {
        match self {
            TitleFlowStepState::NotExecuting => -1,
            TitleFlowStepState::Init => 0,
            TitleFlowStepState::Wait => 1,
            TitleFlowStepState::Finish => 2,
        }
    }

    /// The state with native index `raw`, or `None` outside `-1..=2`.
    pub fn from_raw(raw: i32) -> (r: Option<Self>)
        ensures
            r == Self::of_index(raw),
    {
        match raw {
            -1 => Some(TitleFlowStepState::NotExecuting),
            0 => Some(TitleFlowStepState::Init),
            1 => Some(TitleFlowStepState::Wait),
            2 => Some(TitleFlowStepState::Finish),
            _ => None,
        }
    }

    /// The states in the order they are declared.
    pub open spec fn declared_order() -> Seq<Self> {
        seq![
            TitleFlowStepState::NotExecuting,
            TitleFlowStepState::Init,
            TitleFlowStepState::Wait,
            TitleFlowStepState::Finish,
        ]
    }

    /// Native indices follow declaration order: the state declared at position
    /// `i` has index `i - 1`, so `NotExecuting` is `-1` and each state's index
    /// is one more than that of the state declared before it.
    pub proof fn lemma_index_follows_declaration_order(i: int)
        requires
            0 <= i < 4,
        ensures
            Self::declared_order().len() == 4,
            Self::declared_order()[i].index() == i - 1,
            i + 1 < 4 ==> Self::declared_order()[i + 1].index() == Self::declared_order()[i].index() + 1,
            Self::of_index((i - 1) as i32) == Some(Self::declared_order()[i]),
    {
        if i == 0 {
            assert(Self::declared_order()[0] == TitleFlowStepState::NotExecuting);
        } else if i == 1 {
            assert(Self::declared_order()[1] == TitleFlowStepState::Init);
        } else if i == 2 {
            assert(Self::declared_order()[2] == TitleFlowStepState::Wait);
        } else if i == 3 {
            assert(Self::declared_order()[3] == TitleFlowStepState::Finish);
        }
    }

    /// Every state is declared exactly once.
    pub proof fn lemma_declared_order_lists_every_state(s: Self, i: int, j: int)
        ensures
            Self::declared_order().contains(s),
            0 <= i < j < 4 ==> Self::declared_order()[i] != Self::declared_order()[j],
    {
        match s {
            TitleFlowStepState::NotExecuting => assert(Self::declared_order()[0] == s),
            TitleFlowStepState::Init => assert(Self::declared_order()[1] == s),
            TitleFlowStepState::Wait => assert(Self::declared_order()[2] == s),
            TitleFlowStepState::Finish => assert(Self::declared_order()[3] == s),
        }
        if 0 <= i < j < 4 {
            Self::lemma_index_follows_declaration_order(i);
            Self::lemma_index_follows_declaration_order(j);
        }
    }

    /// Reading back the native index of a state gives the state again, an
    /// index names a state exactly when it lies in `-1..=2`, and the state it
    /// names carries that index.
    pub proof fn lemma_index_round_trip(s: Self, raw: i32)
        ensures
            Self::of_index(s.index()) == Some(s),
            -1 <= s.index() <= 2,
            Self::of_index(raw) is Some <==> -1 <= raw <= 2,
            Self::of_index(raw) matches Some(t) ==> t.index() == raw,
    {
    }
}

/// State indices for `CS::CSMoveMapListStep`.
///
/// Variant order follows the native `CSMoveMapListStep::STEP_*` labels.
///
/// The native stepper stores the state as an `i32`: `NotExecuting` is `-1`
/// and the remaining variants count up from `0` in declaration order.
#[derive(Clone, Copy, Debug, PartialEq, Eq, Hash, Structural)]
pub enum CSMoveMapListStepState {
    NotExecuting,
    Init,
    InitForData,
    WaitForData,
    Wait,
    Finish,
}

impl CSMoveMapListStepState {
    /// Native `i32` index of this state.
    pub open spec fn index(self) -> i32 {
        match self {
            CSMoveMapListStepState::NotExecuting => -1i32,
            CSMoveMapListStepState::Init => 0i32,
            CSMoveMapListStepState::InitForData => 1i32,
            CSMoveMapListStepState::WaitForData => 2i32,
            CSMoveMapListStepState::Wait => 3i32,
            CSMoveMapListStepState::Finish => 4i32,
        }
    }

    /// The state whose native index is `raw`, if any.
    pub open spec fn of_index(raw: i32) -> Option<Self> {
        if raw == -1 {
            Some(CSMoveMapListStepState::NotExecuting)
        } else if raw == 0 {
            Some(CSMoveMapListStepState::Init)
        } else if raw == 1 {
            Some(CSMoveMapListStepState::InitForData)
        } else if raw == 2 {
            Some(CSMoveMapListStepState::WaitForData)
        } else if raw == 3 {
            Some(CSMoveMapListStepState::Wait)
        } else if raw == 4 {
            Some(CSMoveMapListStepState::Finish)
        } else {
            None
        }
    }

    /// Native `i32` index of this state.
    pub fn raw(self) -> (r: i32)
        ensures
            r == self.index(),
    {
        match self {
            CSMoveMapListStepState::NotExecuting => -1,
            CSMoveMapListStepState::Init => 0,
            CSMoveMapListStepState::InitForData => 1,
            CSMoveMapListStepState::WaitForData => 2,
            CSMoveMapListStepState::Wait => 3,
            CSMoveMapListStepState::Finish => 4,
        }
    }

    /// The state with native index `raw`, or `None` outside `-1..=4`.
    pub fn from_raw(raw: i32) -> (r: Option<Self>)
        ensures
            r == Self::of_index(raw),
    {
        match raw {
            -1 => Some(CSMoveMapListStepState::NotExecuting),
            0 => Some(CSMoveMapListStepState::Init),
            1 => Some(CSMoveMapListStepState::InitForData),
            2 => Some(CSMoveMapListStepState::WaitForData),
            3 => Some(CSMoveMapListStepState::Wait),
            4 => Some(CSMoveMapListStepState::Finish),
            _ => None,
        }
    }

    /// The states in the order they are declared.
    pub open spec fn declared_order() -> Seq<Self> {
        seq![
            CSMoveMapListStepState::NotExecuting,
            CSMoveMapListStepState::Init,
            CSMoveMapListStepState::InitForData,
            CSMoveMapListStepState::WaitForData,
            CSMoveMapListStepState::Wait,
            CSMoveMapListStepState::Finish,
        ]
    }

    /// Native indices follow declaration order: the state declared at position
    /// `i` has index `i - 1`, so `NotExecuting` is `-1` and each state's index
    /// is one more than that of the state declared before it.
    pub proof fn lemma_index_follows_declaration_order(i: int)
        requires
            0 <= i < 6,
        ensures
            Self::declared_order().len() == 6,
            Self::declared_order()[i].index() == i - 1,
            i + 1 < 6 ==> Self::declared_order()[i + 1].index() == Self::declared_order()[i].index() + 1,
            Self::of_index((i - 1) as i32) == Some(Self::declared_order()[i]),
    {
        if i == 0 {
            assert(Self::declared_order()[0] == CSMoveMapListStepState::NotExecuting);
        } else if i == 1 {
            assert(Self::declared_order()[1] == CSMoveMapListStepState::Init);
        } else if i == 2 {
            assert(Self::declared_order()[2] == CSMoveMapListStepState::InitForData);
        } else if i == 3 {
            assert(Self::declared_order()[3] == CSMoveMapListStepState::WaitForData);
        } else if i == 4 {
            assert(Self::declared_order()[4] == CSMoveMapListStepState::Wait);
        } else if i == 5 {
            assert(Self::declared_order()[5] == CSMoveMapListStepState::Finish);
        }
    }

    /// Every state is declared exactly once.
    pub proof fn lemma_declared_order_lists_every_state(s: Self, i: int, j: int)
        ensures
            Self::declared_order().contains(s),
            0 <= i < j < 6 ==> Self::declared_order()[i] != Self::declared_order()[j],
    {
        match s {
            CSMoveMapListStepState::NotExecuting => assert(Self::declared_order()[0] == s),
            CSMoveMapListStepState::Init => assert(Self::declared_order()[1] == s),
            CSMoveMapListStepState::InitForData => assert(Self::declared_order()[2] == s),
            CSMoveMapListStepState::WaitForData => assert(Self::declared_order()[3] == s),
            CSMoveMapListStepState::Wait => assert(Self::declared_order()[4] == s),
            CSMoveMapListStepState::Finish => assert(Self::declared_order()[5] == s),
        }
        if 0 <= i < j < 6 {
            Self::lemma_index_follows_declaration_order(i);
            Self::lemma_index_follows_declaration_order(j);
        }
    }

    /// Reading back the native index of a state gives the state again, an
    /// index names a state exactly when it lies in `-1..=4`, and the state it
    /// names carries that index.
    pub proof fn lemma_index_round_trip(s: Self, raw: i32)
        ensures
            Self::of_index(s.index()) == Some(s),
            -1 <= s.index() <= 4,
            Self::of_index(raw) is Some <==> -1 <= raw <= 4,
            Self::of_index(raw) matches Some(t) ==> t.index() == raw,
    {
    }
}

/// State indices for `CS::GameRootStep`.
///
/// Variant order follows the native `GameRootStep::STEP_*` labels.
///
/// The native stepper stores the state as an `i32`: `NotExecuting` is `-1`
/// and the remaining variants count up from `0` in declaration order.
#[derive(Clone, Copy, Debug, PartialEq, Eq, Hash, Structural)]
pub enum GameRootStepState {
    NotExecuting,
    BootInitA,
    BootInitWaitA,
    BootInitB,
    BootInitWaitB,
    BootInitC,
    BootInitWaitC,
    BootInitD,
    BootInitWaitD,
    BootUpdate,
    ShutdownWait,
    Shutdown,
}

impl GameRootStepState {
    /// Native `i32` index of this state.
    pub open spec fn index(self) -> i32 {
        match self {
            GameRootStepState::NotExecuting => -1i32,
            GameRootStepState::BootInitA => 0i32,
            GameRootStepState::BootInitWaitA => 1i32,
            GameRootStepState::BootInitB => 2i32,
            GameRootStepState::BootInitWaitB => 3i32,
            GameRootStepState::BootInitC => 4i32,
            GameRootStepState::BootInitWaitC => 5i32,
            GameRootStepState::BootInitD => 6i32,
            GameRootStepState::BootInitWaitD => 7i32,
            GameRootStepState::BootUpdate => 8i32,
            GameRootStepState::ShutdownWait => 9i32,
            GameRootStepState::Shutdown => 10i32,
        }
    }

    /// The state whose native index is `raw`, if any.
    pub open spec fn of_index(raw: i32) -> Option<Self> {
        if raw == -1 {
            Some(GameRootStepState::NotExecuting)
        } else if raw == 0 {
            Some(GameRootStepState::BootInitA)
        } else if raw == 1 {
            Some(GameRootStepState::BootInitWaitA)
        } else if raw == 2 {
            Some(GameRootStepState::BootInitB)
        } else if raw == 3 {
            Some(GameRootStepState::BootInitWaitB)
        } else if raw == 4 {
            Some(GameRootStepState::BootInitC)
        } else if raw == 5 {
            Some(GameRootStepState::BootInitWaitC)
        } else if raw == 6 {
            Some(GameRootStepState::BootInitD)
        } else if raw == 7 {
            Some(GameRootStepState::BootInitWaitD)
        } else if raw == 8 {
            Some(GameRootStepState::BootUpdate)
        } else if raw == 9 {
            Some(GameRootStepState::ShutdownWait)
        } else if raw == 10 {
            Some(GameRootStepState::Shutdown)
        } else {
            None
        }
    }

    /// Native `i32` index of this state.
    pub fn raw(self) -> (r: i32)
        ensures
            r == self.index(),
    {
        match self {
            GameRootStepState::NotExecuting => -1,
            GameRootStepState::BootInitA => 0,
            GameRootStepState::BootInitWaitA => 1,
            GameRootStepState::BootInitB => 2,
            GameRootStepState::BootInitWaitB => 3,
            GameRootStepState::BootInitC => 4,
            GameRootStepState::BootInitWaitC => 5,
            GameRootStepState::BootInitD => 6,
            GameRootStepState::BootInitWaitD => 7,
            GameRootStepState::BootUpdate => 8,
            GameRootStepState::ShutdownWait => 9,
            GameRootStepState::Shutdown => 10,
        }
    }

    /// The state with native index `raw`, or `None` outside `-1..=10`.
    pub fn from_raw(raw: i32) -> (r: Option<Self>)
        ensures
            r == Self::of_index(raw),
    {
        match raw {
            -1 => Some(GameRootStepState::NotExecuting),
            0 => Some(GameRootStepState::BootInitA),
            1 => Some(GameRootStepState::BootInitWaitA),
            2 => Some(GameRootStepState::BootInitB),
            3 => Some(GameRootStepState::BootInitWaitB),
            4 => Some(GameRootStepState::BootInitC),
            5 => Some(GameRootStepState::BootInitWaitC),
            6 => Some(GameRootStepState::BootInitD),
            7 => Some(GameRootStepState::BootInitWaitD),
            8 => Some(GameRootStepState::BootUpdate),
            9 => Some(GameRootStepState::ShutdownWait),
            10 => Some(GameRootStepState::Shutdown),
            _ => None,
        }
    }

    /// The states in the order they are declared.
    pub open spec fn declared_order() -> Seq<Self> {
        seq![
            GameRootStepState::NotExecuting,
            GameRootStepState::BootInitA,
            GameRootStepState::BootInitWaitA,
            GameRootStepState::BootInitB,
            GameRootStepState::BootInitWaitB,
            GameRootStepState::BootInitC,
            GameRootStepState::BootInitWaitC,
            GameRootStepState::BootInitD,
            GameRootStepState::BootInitWaitD,
            GameRootStepState::BootUpdate,
            GameRootStepState::ShutdownWait,
            GameRootStepState::Shutdown,
        ]
    }

    /// Native indices follow declaration order: the state declared at position
    /// `i` has index `i - 1`, so `NotExecuting` is `-1` and each state's index
    /// is one more than that of the state declared before it.
    pub proof fn lemma_index_follows_declaration_order(i: int)
        requires
            0 <= i < 12,
        ensures
            Self::declared_order().len() == 12,
            Self::declared_order()[i].index() == i - 1,
            i + 1 < 12 ==> Self::declared_order()[i + 1].index() == Self::declared_order()[i].index() + 1,
            Self::of_index((i - 1) as i32) == Some(Self::declared_order()[i]),
    {
        if i == 0 {
            assert(Self::declared_order()[0] == GameRootStepState::NotExecuting);
        } else if i == 1 {
            assert(Self::declared_order()[1] == GameRootStepState::BootInitA);
        } else if i == 2 {
            assert(Self::declared_order()[2] == GameRootStepState::BootInitWaitA);
        } else if i == 3 {
            assert(Self::declared_order()[3] == GameRootStepState::BootInitB);
        } else if i == 4 {
            assert(Self::declared_order()[4] == GameRootStepState::BootInitWaitB);
        } else if i == 5 {
            assert(Self::declared_order()[5] == GameRootStepState::BootInitC);
        } else if i == 6 {
            assert(Self::declared_order()[6] == GameRootStepState::BootInitWaitC);
        } else if i == 7 {
            assert(Self::declared_order()[7] == GameRootStepState::BootInitD);
        } else if i == 8 {
            assert(Self::declared_order()[8] == GameRootStepState::BootInitWaitD);
        } else if i == 9 {
            assert(Self::declared_order()[9] == GameRootStepState::BootUpdate);
        } else if i == 10 {
            assert(Self::declared_order()[10] == GameRootStepState::ShutdownWait);
        } else if i == 11 {
            assert(Self::declared_order()[11] == GameRootStepState::Shutdown);
        }
    }

    /// Every state is declared exactly once.
    pub proof fn lemma_declared_order_lists_every_state(s: Self, i: int, j: int)
        ensures
            Self::declared_order().contains(s),
            0 <= i < j < 12 ==> Self::declared_order()[i] != Self::declared_order()[j],
    {
        match s {
            GameRootStepState::NotExecuting => assert(Self::declared_order()[0] == s),
            GameRootStepState::BootInitA => assert(Self::declared_order()[1] == s),
            GameRootStepState::BootInitWaitA => assert(Self::declared_order()[2] == s),
            GameRootStepState::BootInitB => assert(Self::declared_order()[3] == s),
            GameRootStepState::BootInitWaitB => assert(Self::declared_order()[4] == s),
            GameRootStepState::BootInitC => assert(Self::declared_order()[5] == s),
            GameRootStepState::BootInitWaitC => assert(Self::declared_order()[6] == s),
            GameRootStepState::BootInitD => assert(Self::declared_order()[7] == s),
            GameRootStepState::BootInitWaitD => assert(Self::declared_order()[8] == s),
            GameRootStepState::BootUpdate => assert(Self::declared_order()[9] == s),
            GameRootStepState::ShutdownWait => assert(Self::declared_order()[10] == s),
            GameRootStepState::Shutdown => assert(Self::declared_order()[11] == s),
        }
        if 0 <= i < j < 12 {
            Self::lemma_index_follows_declaration_order(i);
            Self::lemma_index_follows_declaration_order(j);
        }
    }

    /// Reading back the native index of a state gives the state again, an
    /// index names a state exactly when it lies in `-1..=10`, and the state it
    /// names carries that index.
    pub proof fn lemma_index_round_trip(s: Self, raw: i32)
        ensures
            Self::of_index(s.index()) == Some(s),
            -1 <= s.index() <= 10,
            Self::of_index(raw) is Some <==> -1 <= raw <= 10,
            Self::of_index(raw) matches Some(t) ==> t.index() == raw,
    {
    }
}

/// State indices for `CS::TitleStep`.
///
/// Variant order follows the native `TitleStep::STEP_*` labels.
///
/// The native stepper stores the state as an `i32`: `NotExecuting` is `-1`
/// and the remaining variants count up from `0` in declaration order.
#[derive(Clone, Copy, Debug, PartialEq, Eq, Hash, Structural)]
pub enum TitleStepState {
    NotExecuting,
    InitMenu,
    BeginXr117Dialog,
    BeginLogo,
    BeginTitle,
    BeginNewGame,
    PlayGame,
    GameStepWait,
    EndFlow,
    EndFlowWait,
    NextLap,
    MenuJobWait,
    Finish,
}

impl TitleStepState {
    /// Native `i32` index of this state.
    pub open spec fn index(self) -> i32 {
        match self {
            TitleStepState::NotExecuting => -1i32,
            TitleStepState::InitMenu => 0i32,
            TitleStepState::BeginXr117Dialog => 1i32,
            TitleStepState::BeginLogo => 2i32,
            TitleStepState::BeginTitle => 3i32,
            TitleStepState::BeginNewGame => 4i32,
            TitleStepState::PlayGame => 5i32,
            TitleStepState::GameStepWait => 6i32,
            TitleStepState::EndFlow => 7i32,
            TitleStepState::EndFlowWait => 8i32,
            TitleStepState::NextLap => 9i32,
            TitleStepState::MenuJobWait => 10i32,
            TitleStepState::Finish => 11i32,
        }
    }

    /// The state whose native index is `raw`, if any.
    pub open spec fn of_index(raw: i32) -> Option<Self> {
        if raw == -1 {
            Some(TitleStepState::NotExecuting)
        } else if raw == 0 {
            Some(TitleStepState::InitMenu)
        } else if raw == 1 {
            Some(TitleStepState::BeginXr117Dialog)
        } else if raw == 2 {
            Some(TitleStepState::BeginLogo)
        } else if raw == 3 {
            Some(TitleStepState::BeginTitle)
        } else if raw == 4 {
            Some(TitleStepState::BeginNewGame)
        } else if raw == 5 {
            Some(TitleStepState::PlayGame)
        } else if raw == 6 {
            Some(TitleStepState::GameStepWait)
        } else if raw == 7 {
            Some(TitleStepState::EndFlow)
        } else if raw == 8 {
            Some(TitleStepState::EndFlowWait)
        } else if raw == 9 {
            Some(TitleStepState::NextLap)
        } else if raw == 10 {
            Some(TitleStepState::MenuJobWait)
        } else if raw == 11 {
            Some(TitleStepState::Finish)
        } else {
            None
        }
    }

    /// Native `i32` index of this state.
    pub fn raw(self) -> (r: i32)
        ensures
            r == self.index(),
    {
        match self {
            TitleStepState::NotExecuting => -1,
            TitleStepState::InitMenu => 0,
            TitleStepState::BeginXr117Dialog => 1,
            TitleStepState::BeginLogo => 2,
            TitleStepState::BeginTitle => 3,
            TitleStepState::BeginNewGame => 4,
            TitleStepState::PlayGame => 5,
            TitleStepState::GameStepWait => 6,
            TitleStepState::EndFlow => 7,
            TitleStepState::EndFlowWait => 8,
            TitleStepState::NextLap => 9,
            TitleStepState::MenuJobWait => 10,
            TitleStepState::Finish => 11,
        }
    }

    /// The state with native index `raw`, or `None` outside `-1..=11`.
    pub fn from_raw(raw: i32) -> (r: Option<Self>)
        ensures
            r == Self::of_index(raw),
    {
        match raw {
            -1 => Some(TitleStepState::NotExecuting),
            0 => Some(TitleStepState::InitMenu),
            1 => Some(TitleStepState::BeginXr117Dialog),
            2 => Some(TitleStepState::BeginLogo),
            3 => Some(TitleStepState::BeginTitle),
            4 => Some(TitleStepState::BeginNewGame),
            5 => Some(TitleStepState::PlayGame),
            6 => Some(TitleStepState::GameStepWait),
            7 => Some(TitleStepState::EndFlow),
            8 => Some(TitleStepState::EndFlowWait),
            9 => Some(TitleStepState::NextLap),
            10 => Some(TitleStepState::MenuJobWait),
            11 => Some(TitleStepState::Finish),
            _ => None,
        }
    }

    /// The states in the order they are declared.
    pub open spec fn declared_order() -> Seq<Self> {
        seq![
            TitleStepState::NotExecuting,
            TitleStepState::InitMenu,
            TitleStepState::BeginXr117Dialog,
            TitleStepState::BeginLogo,
            TitleStepState::BeginTitle,
            TitleStepState::BeginNewGame,
            TitleStepState::PlayGame,
            TitleStepState::GameStepWait,
            TitleStepState::EndFlow,
            TitleStepState::EndFlowWait,
            TitleStepState::NextLap,
            TitleStepState::MenuJobWait,
            TitleStepState::Finish,
        ]
    }

    /// Native indices follow declaration order: the state declared at position
    /// `i` has index `i - 1`, so `NotExecuting` is `-1` and each state's index
    /// is one more than that of the state declared before it.
    pub proof fn lemma_index_follows_declaration_order(i: int)
        requires
            0 <= i < 13,
        ensures
            Self::declared_order().len() == 13,
            Self::declared_order()[i].index() == i - 1,
            i + 1 < 13 ==> Self::declared_order()[i + 1].index() == Self::declared_order()[i].index() + 1,
            Self::of_index((i - 1) as i32) == Some(Self::declared_order()[i]),
    {
        if i == 0 {
            assert(Self::declared_order()[0] == TitleStepState::NotExecuting);
        } else if i == 1 {
            assert(Self::declared_order()[1] == TitleStepState::InitMenu);
        } else if i == 2 {
            assert(Self::declared_order()[2] == TitleStepState::BeginXr117Dialog);
        } else if i == 3 {
            assert(Self::declared_order()[3] == TitleStepState::BeginLogo);
        } else if i == 4 {
            assert(Self::declared_order()[4] == TitleStepState::BeginTitle);
        } else if i == 5 {
            assert(Self::declared_order()[5] == TitleStepState::BeginNewGame);
        } else if i == 6 {
            assert(Self::declared_order()[6] == TitleStepState::PlayGame);
        } else if i == 7 {
            assert(Self::declared_order()[7] == TitleStepState::GameStepWait);
        } else if i == 8 {
            assert(Self::declared_order()[8] == TitleStepState::EndFlow);
        } else if i == 9 {
            assert(Self::declared_order()[9] == TitleStepState::EndFlowWait);
        } else if i == 10 {
            assert(Self::declared_order()[10] == TitleStepState::NextLap);
        } else if i == 11 {
            assert(Self::declared_order()[11] == TitleStepState::MenuJobWait);
        } else if i == 12 {
            assert(Self::declared_order()[12] == TitleStepState::Finish);
        }
    }

    /// Every state is declared exactly once.
    pub proof fn lemma_declared_order_lists_every_state(s: Self, i: int, j: int)
        ensures
            Self::declared_order().contains(s),
            0 <= i < j < 13 ==> Self::declared_order()[i] != Self::declared_order()[j],
    {
        match s {
            TitleStepState::NotExecuting => assert(Self::declared_order()[0] == s),
            TitleStepState::InitMenu => assert(Self::declared_order()[1] == s),
            TitleStepState::BeginXr117Dialog => assert(Self::declared_order()[2] == s),
            TitleStepState::BeginLogo => assert(Self::declared_order()[3] == s),
            TitleStepState::BeginTitle => assert(Self::declared_order()[4] == s),
            TitleStepState::BeginNewGame => assert(Self::declared_order()[5] == s),
            TitleStepState::PlayGame => assert(Self::declared_order()[6] == s),
            TitleStepState::GameStepWait => assert(Self::declared_order()[7] == s),
            TitleStepState::EndFlow => assert(Self::declared_order()[8] == s),
            TitleStepState::EndFlowWait => assert(Self::declared_order()[9] == s),
            TitleStepState::NextLap => assert(Self::declared_order()[10] == s),
            TitleStepState::MenuJobWait => assert(Self::declared_order()[11] == s),
            TitleStepState::Finish => assert(Self::declared_order()[12] == s),
        }
        if 0 <= i < j < 13 {
            Self::lemma_index_follows_declaration_order(i);
            Self::lemma_index_follows_declaration_order(j);
        }
    }

    /// Reading back the native index of a state gives the state again, an
    /// index names a state exactly when it lies in `-1..=11`, and the state it
    /// names carries that index.
    pub proof fn lemma_index_round_trip(s: Self, raw: i32)
        ensures
            Self::of_index(s.index()) == Some(s),
            -1 <= s.index() <= 11,
            Self::of_index(raw) is Some <==> -1 <= raw <= 11,
            Self::of_index(raw) matches Some(t) ==> t.index() == raw,
    {
    }
}

/// `CS::CSStepTask<T>` tail fields appended after the FD4 stepper base.
pub struct CSStepTaskFields {
    /// Warmup/finish counter used by CS step-task finish handling.
    pub finish_counter: u32,
    /// Native finish-request byte.
    pub finish_requested: u8,
}

/// Root system step registered in `CSTaskImp`'s SystemStep task group.
pub struct CSSystemStep {
    pub stepper: FD4StepBase<CSSystemStepState>,
    pub cs_task: CSStepTaskFields,
    /// Child task wrapper; RTTI shows the task `CS::CSDelayDeleteStep` derives [`FD4TaskBase`].
    pub delay_delete_step: EzChildStep<FD4TaskBase>,
    /// Child task wrapper; RTTI shows the task `CS::CSDbgMenuStep` derives [`FD4TaskBase`].
    pub dbg_menu_step: EzChildStep<FD4TaskBase>,
    /// Child task wrapper; RTTI shows the task `CS::CSResStep` derives [`FD4TaskBase`].
    pub res_step: EzChildStep<FD4TaskBase>,
    /// Child task wrapper; RTTI shows the task `CS::CSFileStep` derives [`FD4TaskBase`].
    pub file_step: EzChildStep<FD4TaskBase>,
    /// Child task wrapper; RTTI shows the task `CS::CSPadStep` derives [`FD4TaskBase`].
    pub pad_step: EzChildStep<FD4TaskBase>,
    /// Child task wrapper; RTTI shows the task `CS::CSSoundStep` derives [`FD4TaskBase`].
    pub sound_step: EzChildStep<FD4TaskBase>,
    /// Child task wrapper; RTTI shows the task `CS::CSGraphicsStep` derives [`FD4TaskBase`].
    pub graphics_step: EzChildStep<FD4TaskBase>,
    /// Child task wrapper; RTTI shows the task `CS::CSScaleformStep` derives [`FD4TaskBase`].
    pub scaleform_step: EzChildStep<FD4TaskBase>,
    /// Child task wrapper; RTTI shows the task `CS::CSFD4LocationStep` derives [`FD4TaskBase`].
    pub fd4_location_step: EzChildStep<FD4TaskBase>,
    /// Child task wrapper; RTTI shows the task `CS::CSRemoStep` derives [`FD4TaskBase`].
    pub remo_step: EzChildStep<FD4TaskBase>,
    /// Child task wrapper; RTTI shows the task `CS::CSCameraStep` derives [`FD4TaskBase`].
    pub camera_step: EzChildStep<FD4TaskBase>,
    /// Child task wrapper; RTTI shows the task `CS::DbgRemoteStep` derives [`FD4TaskBase`].
    pub dbg_remote_step: EzChildStep<FD4TaskBase>,
    /// Child task wrapper; RTTI shows the task `CS::CSDbgDispStep` derives [`FD4TaskBase`].
    pub dbg_disp_step: EzChildStep<FD4TaskBase>,
    /// Child task wrapper; RTTI shows the task `CS::CSReportSystemStep` derives [`FD4TaskBase`].
    pub report_system_step: EzChildStep<FD4TaskBase>,
    /// Child task wrapper; RTTI shows the task `CS::CSDbgIdNameStep` derives [`FD4TaskBase`].
    pub dbg_id_name_step: EzChildStep<FD4TaskBase>,
    /// Child task wrapper; RTTI shows the task `CS::CSPlaylogSystemStep` derives [`FD4TaskBase`].
    pub playlog_system_step: EzChildStep<FD4TaskBase>,
    /// Child task wrapper; RTTI shows the task `CS::CSBehStringStep` derives [`FD4TaskBase`].
    pub beh_string_step: EzChildStep<FD4TaskBase>,
    /// Child task wrapper; RTTI shows the task `CS::CSSystemParamStep` derives [`FD4TaskBase`].
    pub system_param_step: EzChildStep<FD4TaskBase>,
    /// Child task wrapper; RTTI shows the task `CS::CSEventFlagResStep` derives [`FD4TaskBase`].
    pub event_flag_res_step: EzChildStep<FD4TaskBase>,
    pub title_flow_step: EzChildStep<TitleFlowStep>,
}

impl CSSystemStep {
    /// Name under which the static `CSSystemStep` instance is looked up.
    pub fn name() -> (r: &'static str)
        ensures
            r@ == "CSSystemStep"@,
    {
        "CSSystemStep"
    }

    /// The title-flow step task, if registered.
    pub fn title_flow_step(&self) -> (r: Option<NativePtr<TitleFlowStep>>)
        ensures
            r == self.title_flow_step.task,
    {
        self.title_flow_step.task()
    }
}

/// Constructor mode stored by [`TitleFlowStep`].
///
/// The boot path passes `1`, but the native constructor accepts any `i32`
/// and no validating switch is known, so every other value stays available
/// as `Unknown`.
#[derive(Clone, Copy, Debug, PartialEq, Eq, Hash, Structural)]
pub enum TitleFlowMode {
    GameFlow,
    Unknown(i32),
}

/// The checked view of a raw flow-mode word.
pub open spec fn title_flow_mode_of(raw: i32) -> TitleFlowMode {
    if raw == 1 {
        TitleFlowMode::GameFlow
    } else {
        TitleFlowMode::Unknown(raw)
    }
}

impl TitleFlowMode {
    /// The raw word this mode stands for.
    pub open spec fn raw_word(self) -> i32 {
        match self {
            TitleFlowMode::GameFlow => 1,
            TitleFlowMode::Unknown(value) => value,
        }
    }

    /// A mode as `from_raw` produces it: `Unknown` never carries `1`.
    pub open spec fn is_canonical(self) -> bool {
        self matches TitleFlowMode::Unknown(value) ==> value != 1
    }

    pub fn from_raw(raw: i32) -> (r: Self)
        ensures
            r == title_flow_mode_of(raw),
    {
        match raw {
            1 => TitleFlowMode::GameFlow,
            value => TitleFlowMode::Unknown(value),
        }
    }

    pub fn raw(self) -> (r: i32)
        ensures
            r == self.raw_word(),
    {
        match self {
            TitleFlowMode::GameFlow => 1,
            TitleFlowMode::Unknown(value) => value,
        }
    }

    /// The checked view keeps every raw word: converting a word to a mode and
    /// back gives the word, and the mode is canonical.
    pub proof fn lemma_raw_of_from_raw(raw: i32)
        ensures
            title_flow_mode_of(raw).raw_word() == raw,
            title_flow_mode_of(raw).is_canonical(),
    {
    }

    /// A canonical mode survives a trip through its raw word.
    pub proof fn lemma_from_raw_of_raw(mode: TitleFlowMode)
        requires
            mode.is_canonical(),
        ensures
            title_flow_mode_of(mode.raw_word()) == mode,
    {
    }
}

/// Title flow step that owns the move-map/list step during title/menu boot.
pub struct TitleFlowStep {
    pub stepper: FD4StepBase<TitleFlowStepState>,
    pub cs_task: CSStepTaskFields,
    /// Constructor-supplied raw flow mode.
    pub flow_mode: i32,
    pub move_map_list_step: EzChildStep<CSMoveMapListStep>,
}

impl TitleFlowStep {
    /// Checked view of [`Self::flow_mode`].
    pub fn flow_mode(&self) -> (r: TitleFlowMode)
        ensures
            r == title_flow_mode_of(self.flow_mode),
    {
        TitleFlowMode::from_raw(self.flow_mode)
    }

    /// The move-map list step task, if registered.
    pub fn move_map_list_step(&self) -> (r: Option<NativePtr<CSMoveMapListStep>>)
        ensures
            r == self.move_map_list_step.task,
    {
        self.move_map_list_step.task()
    }
}

/// Move-map list step that owns the game-root step while the title flow is active.
pub struct CSMoveMapListStep {
    pub stepper: FD4StepBase<CSMoveMapListStepState>,
    pub cs_task: CSStepTaskFields,
    pub game_root_step: EzChildStep<GameRootStep>,
}

impl CSMoveMapListStep {
    /// The game-root step task, if registered.
    pub fn game_root_step(&self) -> (r: Option<NativePtr<GameRootStep>>)
        ensures
            r == self.game_root_step.task,
    {
        self.game_root_step.task()
    }
}

/// Game-root step that owns the title step while booted into the title flow.
pub struct GameRootStep {
    pub stepper: FD4StepBase<GameRootStepState>,
    pub cs_task: CSStepTaskFields,
    /// Child task wrapper; RTTI shows the task `CS::MsgStep` derives [`FD4TaskBase`].
    pub msg_step: EzChildStep<FD4TaskBase>,
    /// Child task wrapper; RTTI shows the task `CS::CSDummyStep` derives [`FD4TaskBase`].
    pub dummy_step: EzChildStep<FD4TaskBase>,
    /// Child task wrapper; RTTI shows the task `CS::ParamStep` derives [`FD4TaskBase`].
    pub param_step: EzChildStep<FD4TaskBase>,
    pub title_step: EzChildStep<TitleStep>,
    /// Child task wrapper; RTTI shows the task `CS::CSRegulationStep` derives [`FD4TaskBase`].
    pub regulation_step: EzChildStep<FD4TaskBase>,
}

impl GameRootStep {
    pub fn msg_step(&self) -> (r: Option<NativePtr<FD4TaskBase>>)
        ensures
            r == self.msg_step.task,
    {
        self.msg_step.task()
    }

    pub fn dummy_step(&self) -> (r: Option<NativePtr<FD4TaskBase>>)
        ensures
            r == self.dummy_step.task,
    {
        self.dummy_step.task()
    }

    pub fn param_step(&self) -> (r: Option<NativePtr<FD4TaskBase>>)
        ensures
            r == self.param_step.task,
    {
        self.param_step.task()
    }

    pub fn title_step(&self) -> (r: Option<NativePtr<TitleStep>>)
        ensures
            r == self.title_step.task,
    {
        self.title_step.task()
    }

    pub fn regulation_step(&self) -> (r: Option<NativePtr<FD4TaskBase>>)
        ensures
            r == self.regulation_step.task,
    {
        self.regulation_step.task()
    }
}

/// `CS::TitleStep`, the native title-flow owner step.
pub struct TitleStep {
    pub stepper: FD4StepBase<TitleStepState>,
}

impl TitleStep {
    /// RVA of the `CS::TitleStep` vtable in the running game's table.
    pub fn vtable_rva(rvas: &RvaBundle) -> (r: u32)
        ensures
            r == rvas.title_step_vmt,
    {
        rvas.title_step_vmt
    }

    /// RVA of the `CS::TitleStep` stepper state table in the running game's table.
    pub fn state_table_rva(rvas: &RvaBundle) -> (r: u32)
        ensures
            r == rvas.title_step_state_table,
    {
        rvas.title_step_state_table
    }
}

} // verus!
