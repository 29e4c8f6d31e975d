//! Shader programs: building one from two stages, and binding it.

use vstd::prelude::*;
use crate::driver::{BindTarget, DriverCall};
use crate::handle::{bind_calls, bound, fresh, unbind_calls, unbound, GpuObject};

verus! {

/// A stage of a shader program.
#[derive(Clone, Copy, Debug, PartialEq, Eq, Structural)]
pub enum ShaderStage {
    Vertex,
    Fragment,
}

/// Why a shader program could not be built.
#[derive(Debug, PartialEq, Eq)]
pub enum ShaderError {
    /// The source file of a stage could not be read.
    Io { path: String, message: String },
    /// The driver rejected the source of `stage`, read from `path`.
    Compile { stage: ShaderStage, path: String },
    /// The driver could not link the stages read from these two files.
    Link { vertex: String, fragment: String },
}

/// How a build went wrong; the file names are added when the build ends.
#[derive(Debug, PartialEq, Eq)]
pub enum Failure {
    Unreadable { stage: ShaderStage, message: String },
    Compile { stage: ShaderStage },
    Link,
}

/// Where a program build stands.
#[derive(Debug, PartialEq, Eq)]
pub enum BuildState {
    CompilingVertex,
    CompilingFragment { vertex: u32 },
    Linking { vertex: u32, fragment: u32 },
    Linked { program: u32 },
    Failed { failure: Failure },
}

/// What the driver reported for the work that the build asked for.
#[derive(Debug, PartialEq, Eq)]
pub enum BuildEvent {
    /// The current stage's source file could not be read.
    Unreadable { message: String },
    /// The current stage was compiled into `shader`; `success` is its compile status.
    Compiled { shader: u32, success: bool },
    /// The stages were linked into `program`; `success` is its link status.
    Linked { program: u32, success: bool },
}

/// The work that a build asks of the driver next.
#[derive(Debug, PartialEq, Eq)]
pub enum BuildAction {
    /// Read the source of `stage` and compile it; answer with `Unreadable` or `Compiled`.
    Compile { stage: ShaderStage },
    /// Link the two compiled stages into a new program; answer with `Linked`.
    Link { vertex: u32, fragment: u32 },
    /// Nothing left: the build is over.
    Done,
}

/// A shader program under construction from a vertex and a fragment source file.
pub struct ShaderBuild {
    pub vertex: String,
    pub fragment: String,
    pub state: BuildState,
}

/// Whether the build is over, one way or the other.
pub open spec fn is_over(s: BuildState) -> bool {
    s is Linked || s is Failed
}

/// The state that `e` moves a build in state `s` to. An event that does not
/// answer what the state asked for leaves it as it is.
pub open spec fn next_state(s: BuildState, e: BuildEvent) -> BuildState {
    match (s, e) {
        (BuildState::CompilingVertex, BuildEvent::Unreadable { message }) => BuildState::Failed {
            failure: Failure::Unreadable { stage: ShaderStage::Vertex, message },
        },
        (BuildState::CompilingVertex, BuildEvent::Compiled { shader, success }) => if success {
            BuildState::CompilingFragment { vertex: shader }
        } else {
            BuildState::Failed { failure: Failure::Compile { stage: ShaderStage::Vertex } }
        },
        (BuildState::CompilingFragment { vertex: _ }, BuildEvent::Unreadable { message }) => {
            BuildState::Failed {
                failure: Failure::Unreadable { stage: ShaderStage::Fragment, message },
            }
        },
        (BuildState::CompilingFragment { vertex }, BuildEvent::Compiled { shader, success }) => {
            if success {
                BuildState::Linking { vertex, fragment: shader }
            } else {
                BuildState::Failed { failure: Failure::Compile { stage: ShaderStage::Fragment } }
            }
        },
        (BuildState::Linking { vertex: _, fragment: _ }, BuildEvent::Linked { program, success }) => {
            if success {
                BuildState::Linked { program }
            } else {
                BuildState::Failed { failure: Failure::Link }
            }
        },
        (s, _) => s,
    }
}

/// The calls that a step issues: once the program is linked, the two
/// stages are released; when a step fails, every stage and program that the
/// build created so far is released.
pub open spec fn step_calls(s: BuildState, e: BuildEvent) -> Seq<DriverCall> {
    match (s, e) {
        (BuildState::CompilingVertex, BuildEvent::Compiled { shader, success }) => {
            if success {
                seq![]
            } else {
                seq![DriverCall::DeleteStage { id: shader }]
            }
        },
        (BuildState::CompilingFragment { vertex }, BuildEvent::Unreadable { message: _ }) => {
            seq![DriverCall::DeleteStage { id: vertex }]
        },
        (BuildState::CompilingFragment { vertex }, BuildEvent::Compiled { shader, success }) => {
            if success {
                seq![]
            } else {
                seq![DriverCall::DeleteStage { id: shader }, DriverCall::DeleteStage { id: vertex }]
            }
        },
        (BuildState::Linking { vertex, fragment }, BuildEvent::Linked { program, success }) => {
            if success {
                seq![DriverCall::DeleteStage { id: vertex }, DriverCall::DeleteStage { id: fragment }]
            } else {
                seq![
                    DriverCall::DeleteStage { id: vertex },
                    DriverCall::DeleteStage { id: fragment },
                    DriverCall::Delete { target: BindTarget::Program, id: program },
                ]
            }
        },
        _ => seq![],
    }
}

/// The action that a build in state `s` asks for.
pub open spec fn action_of(s: BuildState) -> BuildAction {
    match s {
        BuildState::CompilingVertex => BuildAction::Compile { stage: ShaderStage::Vertex },
        BuildState::CompilingFragment { vertex: _ } => BuildAction::Compile {
            stage: ShaderStage::Fragment,
        },
        BuildState::Linking { vertex, fragment } => BuildAction::Link { vertex, fragment },
        _ => BuildAction::Done,
    }
}

/// The error that a failed build of `vertex` and `fragment` reports.
pub open spec fn error_of(f: Failure, vertex: String, fragment: String) -> ShaderError {
    match f {
        Failure::Unreadable { stage, message } => ShaderError::Io {
            path: if stage is Vertex {
                vertex
            } else {
                fragment
            },
            message,
        },
        Failure::Compile { stage } => ShaderError::Compile {
            stage,
            path: if stage is Vertex {
                vertex
            } else {
                fragment
            },
        },
        Failure::Link => ShaderError::Link { vertex, fragment },
    }
}

impl ShaderBuild {
    /// Starts a build from the two source files; the vertex stage comes first.
    pub fn new(vertex: String, fragment: String) -> (r: ShaderBuild)
        ensures
            r.vertex == vertex,
            r.fragment == fragment,
            r.state == BuildState::CompilingVertex,
    {
        ShaderBuild { vertex, fragment, state: BuildState::CompilingVertex }
    }

    /// The driver work that the build waits for.
    pub fn next_action(&self) -> (r: BuildAction)
        ensures
            r == action_of(self.state),
    {
        match &self.state {
            BuildState::CompilingVertex => BuildAction::Compile { stage: ShaderStage::Vertex },
            BuildState::CompilingFragment { vertex: _ } => BuildAction::Compile {
                stage: ShaderStage::Fragment,
            },
            BuildState::Linking { vertex, fragment } => BuildAction::Link {
                vertex: *vertex,
                fragment: *fragment,
            },
            _ => BuildAction::Done,
        }
    }

    /// The source file of `stage`.
    pub fn source_path(&self, stage: ShaderStage) -> (r: &String)
        ensures
            *r == if stage is Vertex {
                self.vertex
            } else {
                self.fragment
            },
    {
        match stage {
            ShaderStage::Vertex => &self.vertex,
            ShaderStage::Fragment => &self.fragment,
        }
    }

    /// Takes in what the driver reported for the last action.
    pub fn step(&mut self, event: BuildEvent, calls: &mut Vec<DriverCall>)
        ensures
            final(self).vertex == old(self).vertex,
            final(self).fragment == old(self).fragment,
            final(self).state == next_state(old(self).state, event),
            final(calls)@ == old(calls)@ + step_calls(old(self).state, event),
    {
        let mut state = BuildState::CompilingVertex;
        std::mem::swap(&mut state, &mut self.state);
        let next = match (state, event) {
            (BuildState::CompilingVertex, BuildEvent::Unreadable { message }) => {
                BuildState::Failed {
                    failure: Failure::Unreadable { stage: ShaderStage::Vertex, message },
                }
            },
            (BuildState::CompilingVertex, BuildEvent::Compiled { shader, success }) => {
                if success {
                    BuildState::CompilingFragment { vertex: shader }
                } else {
                    calls.push(DriverCall::DeleteStage { id: shader });
                    BuildState::Failed { failure: Failure::Compile { stage: ShaderStage::Vertex } }
                }
            },
            (BuildState::CompilingFragment { vertex }, BuildEvent::Unreadable { message }) => {
                calls.push(DriverCall::DeleteStage { id: vertex });
                BuildState::Failed {
                    failure: Failure::Unreadable { stage: ShaderStage::Fragment, message },
                }
            },
            (BuildState::CompilingFragment { vertex }, BuildEvent::Compiled { shader, success }) => {
                if success {
                    BuildState::Linking { vertex, fragment: shader }
                } else {
                    calls.push(DriverCall::DeleteStage { id: shader });
                    calls.push(DriverCall::DeleteStage { id: vertex });
                    BuildState::Failed {
                        failure: Failure::Compile { stage: ShaderStage::Fragment },
                    }
                }
            },
            (
                BuildState::Linking { vertex, fragment },
                BuildEvent::Linked { program, success },
            ) => {
                if success {
                    calls.push(DriverCall::DeleteStage { id: vertex });
                    calls.push(DriverCall::DeleteStage { id: fragment });
                    BuildState::Linked { program }
                } else {
                    calls.push(DriverCall::DeleteStage { id: vertex });
                    calls.push(DriverCall::DeleteStage { id: fragment });
                    calls.push(DriverCall::Delete { target: BindTarget::Program, id: program });
                    BuildState::Failed { failure: Failure::Link }
                }
            },
            (s, _) => s,
        };
        self.state = next;
    }
}

/// A linked shader program.
pub struct Shader {
    obj: GpuObject,
}

impl View for Shader {
    type V = GpuObject;

    closed spec fn view(&self) -> GpuObject {
        self.obj
    }
}

impl Shader {
    /// Ends a build that is over: a linked program comes back bound, a
    /// failed build comes back as the error naming the file or files at fault.
    pub fn new(build: ShaderBuild, calls: &mut Vec<DriverCall>) -> (r: Result<Shader, ShaderError>)
        requires
            is_over(build.state),
        ensures
            match build.state {
                BuildState::Linked { program } => {
                    &&& r is Ok
                    &&& r->Ok_0@ == bound(fresh(program))
                    &&& final(calls)@ == old(calls)@ + seq![
                        DriverCall::Bind { target: BindTarget::Program, id: program },
                    ]
                },
                BuildState::Failed { failure } => {
                    &&& r == Err::<Shader, ShaderError>(
                        error_of(failure, build.vertex, build.fragment),
                    )
                    &&& final(calls)@ == old(calls)@
                },
                _ => false,
            },
    {
        let ShaderBuild { vertex, fragment, state } = build;
        match state {
            BuildState::Linked { program } => {
                let mut instance = Shader { obj: GpuObject::new(program) };
                instance.bind(calls);
                Ok(instance)
            },
            BuildState::Failed { failure } => {
                let err = match failure {
                    Failure::Unreadable { stage, message } => {
                        let path = match stage {
                            ShaderStage::Vertex => vertex,
                            ShaderStage::Fragment => fragment,
                        };
                        ShaderError::Io { path, message }
                    },
                    Failure::Compile { stage } => {
                        let path = match stage {
                            ShaderStage::Vertex => vertex,
                            ShaderStage::Fragment => fragment,
                        };
                        ShaderError::Compile { stage, path }
                    },
                    Failure::Link => ShaderError::Link { vertex, fragment },
                };
                Err(err)
            },
            _ => {
                proof {
                    assert(false);
                }
                Err(ShaderError::Link { vertex, fragment })
            },
        }
    }

    /// Makes this program current unless it is already.
    pub fn bind(&mut self, calls: &mut Vec<DriverCall>)
        ensures
            final(self)@ == bound(old(self)@),
            final(calls)@ == old(calls)@ + bind_calls(old(self)@, BindTarget::Program),
    {
        self.obj.bind(BindTarget::Program, calls);
    }

    /// Leaves no program current if this one is.
    pub fn unbind(&mut self, calls: &mut Vec<DriverCall>)
        ensures
            final(self)@ == unbound(old(self)@),
            final(calls)@ == old(calls)@ + unbind_calls(old(self)@, BindTarget::Program),
    {
        self.obj.unbind(BindTarget::Program, calls);
    }

    /// The driver's name of this program.
    pub fn id(&self) -> (r: u32)
        ensures
            r == self@.id,
    {
        self.obj.id
    }

    /// Deletes the program, bound or not.
    pub fn release(self, calls: &mut Vec<DriverCall>)
        ensures
            final(calls)@ == old(calls)@ + seq![
                DriverCall::Delete { target: BindTarget::Program, id: self@.id },
            ],
    {
        calls.push(DriverCall::Delete { target: BindTarget::Program, id: self.obj.id });
    }
}

} // verus!
