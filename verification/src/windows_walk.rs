//! Walking a path from its volume's root: each directory on the way is held before the
//! next one is looked at, so that no component can be swapped for a reparse point.

use vstd::pervasive::unreached;
use vstd::prelude::*;
use crate::diagnostic::{IoError, SafeIoKind};
use crate::windows;
use crate::windows::{
    after_creating, after_opening, io_error, refusal, reject_reparse, DirectoryStep, WindowsFsError,
    FILE_ATTRIBUTE_REPARSE_POINT,
};

verus! {

/// What a walk is for.
#[derive(Clone, Copy, Debug, PartialEq, Eq, Structural)]
pub enum WalkPurpose {
    /// To hold a path that exists.
    Pin,
    /// To hold a file whose bytes must not change while it is read.
    PinForSnapshot,
    /// To hold a directory, and to make what is missing of it.
    CreateDirectories,
}

/// How a component is opened. None follows a reparse point, and none lets others delete.
#[derive(Clone, Copy, Debug, PartialEq, Eq, Structural)]
pub enum Opener {
    Directory,
    AnyObject,
    /// No one else may write meanwhile.
    FileForSnapshot,
}

impl WalkPurpose {
    /// How component `index` of `count` is opened.
    pub open spec fn opener_at(self, index: int, count: int) -> Opener {
        match self {
            WalkPurpose::CreateDirectories => Opener::Directory,
            WalkPurpose::Pin => if index + 1 == count {
                Opener::AnyObject
            } else {
                Opener::Directory
            },
            WalkPurpose::PinForSnapshot => if index + 1 == count {
                Opener::FileForSnapshot
            } else {
                Opener::Directory
            },
        }
    }

    fn opener(self, index: usize, count: usize) -> (opener: Opener)
        requires
            index < count,
        ensures
            opener == self.opener_at(index as int, count as int),
    {
        if index + 1 < count {
            return Opener::Directory;
        }
        match self {
            WalkPurpose::CreateDirectories => Opener::Directory,
            WalkPurpose::Pin => Opener::AnyObject,
            WalkPurpose::PinForSnapshot => Opener::FileForSnapshot,
        }
    }
}

/// What is being done when a component does not open.
pub open spec fn opening_operation(opener: Opener) -> &'static str {
    match opener {
        Opener::Directory => "打开目录",
        Opener::AnyObject => "打开路径",
        Opener::FileForSnapshot => "打开稳定快照文件",
    }
}

/// The failure to make a path absolute.
pub fn absolute_path_failure(purpose: WalkPurpose, path: &str, source: IoError) -> (error: WindowsFsError)
    ensures
        error matches WindowsFsError::Io { operation, path: p, source: s } && operation == (
        match purpose {
            WalkPurpose::CreateDirectories => "建立绝对目录路径",
            _ => "建立绝对路径",
        }) && p@ == path@ && s == source,
{
    let operation = match purpose {
        WalkPurpose::CreateDirectories => "建立绝对目录路径",
        _ => "建立绝对路径",
    };
    io_error(operation, path, source)
}

/// Where a walk stands. An index says which component is next; all before it are held.
#[derive(Debug, PartialEq, Eq)]
pub enum WalkState {
    /// Room for the handles comes first.
    Reserving,
    Opening { index: usize },
    Creating { index: usize },
    /// A directory that was missing is there now.
    Reopening { index: usize },
    /// Everything is held: the path can be resolved.
    Resolving,
    Finished { result: Result<String, WindowsFsError> },
}

#[derive(Debug, PartialEq, Eq)]
pub enum WalkRequest<'a> {
    Reserve { count: usize },
    Open { path: &'a str, opener: Opener },
    Create { path: &'a str },
    Resolve { path: &'a str },
    Nothing,
}

#[derive(Debug, PartialEq, Eq)]
pub enum WalkReply {
    Done(Result<(), IoError>),
    OpenFailed(IoError),
    /// The component is open, but its attributes could not be read.
    AttributesFailed(IoError),
    Opened { attributes: u32 },
    Resolved(Result<String, IoError>),
}

/// Whether a reply says that a component is open and stands for itself.
pub open spec fn is_confirmed(reply: WalkReply) -> bool {
    reply matches WalkReply::Opened { attributes } && attributes & FILE_ATTRIBUTE_REPARSE_POINT == 0
}

/// Whether `result` ends a walk with a failure of the system.
pub open spec fn is_system_failure(
    next: WalkState,
    operation: &'static str,
    path: Seq<char>,
    source: IoError,
) -> bool {
    &&& next matches WalkState::Finished {
        result: Err(WindowsFsError::Io { operation: o, path: p, source: s }),
    }
    &&& o == operation
    &&& p@ == path
    &&& s == source
}

impl WalkState {
    pub open spec fn fits(self, count: int) -> bool {
        match self {
            WalkState::Opening { index } => index < count,
            WalkState::Creating { index } => index < count,
            WalkState::Reopening { index } => index < count,
            _ => true,
        }
    }

    pub open spec fn expects(self, reply: WalkReply) -> bool {
        match self {
            WalkState::Reserving => reply is Done,
            WalkState::Opening { .. } => reply is OpenFailed || reply is AttributesFailed
                || reply is Opened,
            WalkState::Creating { .. } => reply is Done,
            WalkState::Reopening { .. } => reply is OpenFailed || reply is AttributesFailed
                || reply is Opened,
            WalkState::Resolving => reply is Resolved,
            WalkState::Finished { .. } => false,
        }
    }

    /// The component that is being opened.
    pub open spec fn opened_index(self) -> Option<int> {
        match self {
            WalkState::Opening { index } => Some(index as int),
            WalkState::Reopening { index } => Some(index as int),
            _ => None,
        }
    }

    /// How many components are held.
    pub open spec fn held(self, count: int) -> int {
        match self {
            WalkState::Opening { index } => index as int,
            WalkState::Creating { index } => index as int,
            WalkState::Reopening { index } => index as int,
            WalkState::Resolving => count,
            _ => 0,
        }
    }

    /// Whether `next` comes after component `index` was tried.
    pub open spec fn after_trying(
        self,
        components: Seq<String>,
        purpose: WalkPurpose,
        index: int,
        reply: WalkReply,
        next: WalkState,
    ) -> bool {
        let missing_is_made = self is Opening && purpose == WalkPurpose::CreateDirectories;
        match reply {
            WalkReply::OpenFailed(source) => if missing_is_made && source.kind
                == SafeIoKind::NotFound {
                next == (WalkState::Creating { index: index as usize })
            } else {
                is_system_failure(
                    next,
                    opening_operation(purpose.opener_at(index, components.len() as int)),
                    components[index]@,
                    source,
                )
            },
            WalkReply::AttributesFailed(source) => if missing_is_made && source.kind
                == SafeIoKind::NotFound {
                next == (WalkState::Creating { index: index as usize })
            } else {
                is_system_failure(next, "读取文件属性", components[index]@, source)
            },
            WalkReply::Opened { attributes } => if attributes & FILE_ATTRIBUTE_REPARSE_POINT != 0 {
                next matches WalkState::Finished { result: Err(WindowsFsError::ReparsePoint { path }) }
                    && path@ == components[index]@
            } else {
                next == after_component(index, components.len() as int)
            },
            _ => false,
        }
    }

    /// Whether `next` comes after this state when the system gave `reply`.
    pub open spec fn leads_to(
        self,
        absolute: Seq<char>,
        components: Seq<String>,
        purpose: WalkPurpose,
        reply: WalkReply,
        next: WalkState,
    ) -> bool {
        match (self, reply) {
            (WalkState::Reserving, WalkReply::Done(Ok(_))) => next == after_component(
                -1,
                components.len() as int,
            ),
            (WalkState::Reserving, WalkReply::Done(Err(source))) => is_system_failure(
                next,
                match purpose {
                    WalkPurpose::CreateDirectories => "分配目录路径句柄",
                    _ => "分配路径句柄",
                },
                absolute,
                source,
            ),
            (WalkState::Opening { index }, _) => self.after_trying(
                components,
                purpose,
                index as int,
                reply,
                next,
            ),
            (WalkState::Creating { index }, WalkReply::Done(Ok(_))) => next == (
            WalkState::Reopening { index }),
            (WalkState::Creating { index }, WalkReply::Done(Err(source))) => if source.kind
                == SafeIoKind::AlreadyExists {
                next == (WalkState::Reopening { index })
            } else {
                is_system_failure(next, "建立目录组件", components[index as int]@, source)
            },
            (WalkState::Reopening { index }, _) => self.after_trying(
                components,
                purpose,
                index as int,
                reply,
                next,
            ),
            (WalkState::Resolving, WalkReply::Resolved(Ok(resolved))) => next == (
            WalkState::Finished { result: Ok(resolved) }),
            (WalkState::Resolving, WalkReply::Resolved(Err(source))) => is_system_failure(
                next,
                match purpose {
                    WalkPurpose::CreateDirectories => "规范化已建立目录",
                    _ => "规范化固定路径",
                },
                absolute,
                source,
            ),
            _ => false,
        }
    }
}

/// The state after component `index` of `count` is held.
pub open spec fn after_component(index: int, count: int) -> WalkState {
    if index + 1 < count {
        WalkState::Opening { index: (index + 1) as usize }
    } else {
        WalkState::Resolving
    }
}

/// A walk along a path.
#[derive(Debug, PartialEq, Eq)]
pub struct PathWalk {
    absolute: String,
    /// From the volume's root to the path itself.
    components: Vec<String>,
    purpose: WalkPurpose,
    state: WalkState,
}

fn refuse_component(
    opener: Opener,
    path: &str,
    reply: WalkReply,
) -> (result: Result<(), WindowsFsError>)
    requires
        reply is OpenFailed || reply is AttributesFailed || reply is Opened,
    ensures
        match reply {
            WalkReply::OpenFailed(source) => result matches Err(
                WindowsFsError::Io { operation, path: p, source: s },
            ) && operation == opening_operation(opener) && p@ == path@ && s == source,
            WalkReply::AttributesFailed(source) => result matches Err(
                WindowsFsError::Io { operation, path: p, source: s },
            ) && operation == "读取文件属性" && p@ == path@ && s == source,
            WalkReply::Opened { attributes } => if attributes & FILE_ATTRIBUTE_REPARSE_POINT != 0 {
                result matches Err(WindowsFsError::ReparsePoint { path: p }) && p@ == path@
            } else {
                result is Ok
            },
            _ => false,
        },
{
    match reply {
        WalkReply::OpenFailed(source) => {
            let operation = match opener {
                Opener::Directory => "打开目录",
                Opener::AnyObject => "打开路径",
                Opener::FileForSnapshot => "打开稳定快照文件",
            };
            Err(io_error(operation, path, source))
        },
        WalkReply::AttributesFailed(source) => Err(io_error("读取文件属性", path, source)),
        WalkReply::Opened { attributes } => reject_reparse(attributes, path),
        _ => unreached(),
    }
}

fn go_on(index: usize, count: usize) -> (next: WalkState)
    requires
        index < count,
    ensures
        next == after_component(index as int, count as int),
        next.fits(count as int),
{
    if index + 1 < count {
        WalkState::Opening { index: index + 1 }
    } else {
        WalkState::Resolving
    }
}

/// Whether `request` is what a walk asks for.
pub open spec fn is_request(
    state: WalkState,
    absolute: Seq<char>,
    components: Seq<String>,
    purpose: WalkPurpose,
    request: WalkRequest<'_>,
) -> bool {
    match state {
        WalkState::Reserving => request == (WalkRequest::Reserve { count: components.len() as usize }),
        WalkState::Creating { index } => request matches WalkRequest::Create { path } && path@
            == components[index as int]@,
        WalkState::Resolving => request matches WalkRequest::Resolve { path } && path@ == absolute,
        WalkState::Finished { .. } => request == WalkRequest::Nothing,
        state => {
            &&& request matches WalkRequest::Open { path, opener }
            &&& path@ == components[state.opened_index()->0]@
            &&& opener == purpose.opener_at(state.opened_index()->0, components.len() as int)
        },
    }
}

impl PathWalk {
    #[verifier::type_invariant]
    spec fn is_valid(&self) -> bool {
        self.state.fits(self.components@.len() as int)
    }

    pub closed spec fn path(&self) -> Seq<char> {
        self.absolute@
    }

    pub closed spec fn on_the_way(&self) -> Seq<String> {
        self.components@
    }

    pub closed spec fn aim(&self) -> WalkPurpose {
        self.purpose
    }

    pub closed spec fn at(&self) -> WalkState {
        self.state
    }

    /// Starts to walk along the components of an absolute path, the root first.
    pub fn new(absolute: String, components: Vec<String>, purpose: WalkPurpose) -> (walk: Self)
        ensures
            walk.path() == absolute@,
            walk.on_the_way() == components@,
            walk.aim() == purpose,
            if components@.len() > 0 {
                walk.at() == WalkState::Reserving
            } else {
                walk.at() matches WalkState::Finished { result: Err(error) } && (match purpose {
                    WalkPurpose::CreateDirectories => windows::is_refusal(
                        error,
                        "建立目录路径",
                        absolute@,
                        "目录路径没有可建立组件",
                    ),
                    _ => windows::is_refusal(error, "固定路径", absolute@, "路径没有可打开组件"),
                })
            },
    {
        let state = if components.len() == 0 {
            let error = match purpose {
                WalkPurpose::CreateDirectories => refusal(
                    "建立目录路径",
                    absolute.as_str(),
                    "目录路径没有可建立组件",
                ),
                _ => refusal("固定路径", absolute.as_str(), "路径没有可打开组件"),
            };
            WalkState::Finished { result: Err(error) }
        } else {
            WalkState::Reserving
        };
        PathWalk { absolute, components, purpose, state }
    }

    /// What to do now.
    pub fn request(&self) -> (request: WalkRequest<'_>)
        ensures
            is_request(self.at(), self.path(), self.on_the_way(), self.aim(), request),
    {
        proof {
            use_type_invariant(self);
        }
        match &self.state {
            WalkState::Reserving => WalkRequest::Reserve { count: self.components.len() },
            WalkState::Opening { index } => WalkRequest::Open {
                path: self.components[*index].as_str(),
                opener: self.purpose.opener(*index, self.components.len()),
            },
            WalkState::Creating { index } => WalkRequest::Create {
                path: self.components[*index].as_str(),
            },
            WalkState::Reopening { index } => WalkRequest::Open {
                path: self.components[*index].as_str(),
                opener: self.purpose.opener(*index, self.components.len()),
            },
            WalkState::Resolving => WalkRequest::Resolve { path: self.absolute.as_str() },
            WalkState::Finished { .. } => WalkRequest::Nothing,
        }
    }

    /// Goes on with what came of the request.
    pub fn advance(self, reply: WalkReply) -> (next: Self)
        requires
            self.at().expects(reply),
        ensures
            next.path() == self.path(),
            next.on_the_way() == self.on_the_way(),
            next.aim() == self.aim(),
            self.at().leads_to(self.path(), self.on_the_way(), self.aim(), reply, next.at()),
    {
        proof {
            use_type_invariant(&self);
        }
        let PathWalk { absolute, components, purpose, state } = self;
        let count: usize = components.len();
        let state = match (state, reply) {
            (WalkState::Reserving, WalkReply::Done(Ok(()))) => {
                if count > 0 {
                    WalkState::Opening { index: 0 }
                } else {
                    WalkState::Resolving
                }
            },
            (WalkState::Reserving, WalkReply::Done(Err(source))) => {
                let operation = match purpose {
                    WalkPurpose::CreateDirectories => "分配目录路径句柄",
                    _ => "分配路径句柄",
                };
                WalkState::Finished { result: Err(io_error(operation, absolute.as_str(), source)) }
            },
            (WalkState::Opening { index }, reply) => {
                let opener = purpose.opener(index, count);
                let result = refuse_component(opener, components[index].as_str(), reply);
                match purpose {
                    WalkPurpose::CreateDirectories => match after_opening(result) {
                        DirectoryStep::Keep => go_on(index, count),
                        DirectoryStep::Create => WalkState::Creating { index },
                        DirectoryStep::Fail(error) => WalkState::Finished { result: Err(error) },
                        DirectoryStep::Open => unreached(),
                    },
                    _ => match result {
                        Ok(()) => go_on(index, count),
                        Err(error) => WalkState::Finished { result: Err(error) },
                    },
                }
            },
            (WalkState::Creating { index }, WalkReply::Done(result)) => match after_creating(
                components[index].as_str(),
                result,
            ) {
                DirectoryStep::Open => WalkState::Reopening { index },
                DirectoryStep::Fail(error) => WalkState::Finished { result: Err(error) },
                _ => unreached(),
            },
            (WalkState::Reopening { index }, reply) => {
                let opener = purpose.opener(index, count);
                match refuse_component(opener, components[index].as_str(), reply) {
                    Ok(()) => go_on(index, count),
                    Err(error) => WalkState::Finished { result: Err(error) },
                }
            },
            (WalkState::Resolving, WalkReply::Resolved(Ok(resolved))) => WalkState::Finished {
                result: Ok(resolved),
            },
            (WalkState::Resolving, WalkReply::Resolved(Err(source))) => {
                let operation = match purpose {
                    WalkPurpose::CreateDirectories => "规范化已建立目录",
                    _ => "规范化固定路径",
                };
                WalkState::Finished { result: Err(io_error(operation, absolute.as_str(), source)) }
            },
            _ => unreached(),
        };
        PathWalk { absolute, components, purpose, state }
    }

    pub fn into_result(self) -> (result: Result<String, WindowsFsError>)
        requires
            self.at() is Finished,
        ensures
            self.at() == (WalkState::Finished { result }),
    {
        match self.state {
            WalkState::Finished { result } => result,
            _ => unreached(),
        }
    }
}

/// A walk from its beginning: `states[i + 1]` comes after `states[i]` and `replies[i]`.
pub open spec fn is_walk(
    absolute: Seq<char>,
    components: Seq<String>,
    purpose: WalkPurpose,
    states: Seq<WalkState>,
    replies: Seq<WalkReply>,
) -> bool {
    &&& states.len() == replies.len() + 1
    &&& states[0] == WalkState::Reserving
    &&& forall|i: int|
        #![trigger states[i], replies[i]]
        0 <= i < replies.len() ==> states[i].fits(components.len() as int) && states[i].expects(
            replies[i],
        ) && states[i].leads_to(absolute, components, purpose, replies[i], states[i + 1])
}

/// Whether component `index` was found to be open and to stand for itself before step
/// `end`.
pub open spec fn was_confirmed(
    states: Seq<WalkState>,
    replies: Seq<WalkReply>,
    index: int,
    end: int,
) -> bool {
    exists|i: int|
        #![trigger states[i], replies[i]]
        0 <= i < end && states[i].opened_index() == Some(index) && is_confirmed(replies[i])
}

/// Whatever a walk asks for, everything above it is held and was found not to be a reparse
/// point: in particular, a directory is never made beneath one.
pub proof fn everything_above_is_confirmed(
    absolute: Seq<char>,
    components: Seq<String>,
    purpose: WalkPurpose,
    states: Seq<WalkState>,
    replies: Seq<WalkReply>,
    step: int,
)
    requires
        is_walk(absolute, components, purpose, states, replies),
        components.len() <= usize::MAX,
        0 <= step < states.len(),
    ensures
        forall|index: int|
            0 <= index < states[step].held(components.len() as int) ==> #[trigger] was_confirmed(
                states,
                replies,
                index,
                step,
            ),
    decreases step,
{
    if step > 0 {
        everything_above_is_confirmed(absolute, components, purpose, states, replies, step - 1);
        let count = components.len() as int;
        let before = states[step - 1];
        let reply = replies[step - 1];
        assert(before.leads_to(absolute, components, purpose, reply, states[step]));
        assert forall|index: int| 0 <= index < states[step].held(count) implies #[trigger] was_confirmed(
            states,
            replies,
            index,
            step,
        ) by {
            if index < before.held(count) {
                assert(was_confirmed(states, replies, index, step - 1));
                let i = choose|i: int|
                    #![trigger states[i], replies[i]]
                    0 <= i < step - 1 && states[i].opened_index() == Some(index) && is_confirmed(
                        replies[i],
                    );
                assert(states[i].opened_index() == Some(index) && is_confirmed(replies[i]));
            } else {
                assert(states[step - 1].opened_index() == Some(index) && is_confirmed(
                    replies[step - 1],
                ));
            }
        }
    }
}

/// A walk that ends well has found every component of its path, down to the last, to be
/// open and not a reparse point.
pub proof fn finished_walks_confirmed_every_component(
    absolute: Seq<char>,
    components: Seq<String>,
    purpose: WalkPurpose,
    states: Seq<WalkState>,
    replies: Seq<WalkReply>,
)
    requires
        is_walk(absolute, components, purpose, states, replies),
        components.len() <= usize::MAX,
        states.last() matches WalkState::Finished { result: Ok(_) },
    ensures
        forall|index: int|
            0 <= index < components.len() ==> #[trigger] was_confirmed(
                states,
                replies,
                index,
                replies.len() as int,
            ),
{
    let last = replies.len() - 1;
    assert(states[last].leads_to(absolute, components, purpose, replies[last], states[last + 1]));
    assert(states[last] == WalkState::Resolving);
    everything_above_is_confirmed(absolute, components, purpose, states, replies, last);
    assert forall|index: int| 0 <= index < components.len() implies #[trigger] was_confirmed(
        states,
        replies,
        index,
        replies.len() as int,
    ) by {
        assert(was_confirmed(states, replies, index, last));
        let i = choose|i: int|
            #![trigger states[i], replies[i]]
            0 <= i < last && states[i].opened_index() == Some(index) && is_confirmed(replies[i]);
        assert(states[i].opened_index() == Some(index) && is_confirmed(replies[i]));
    }
}

/// A directory is made only where one was missing, and only when asked for.
pub proof fn directories_are_made_only_where_missing(
    absolute: Seq<char>,
    components: Seq<String>,
    purpose: WalkPurpose,
    state: WalkState,
    reply: WalkReply,
    next: WalkState,
)
    requires
        state.expects(reply),
        state.leads_to(absolute, components, purpose, reply, next),
        next is Creating,
    ensures
        purpose == WalkPurpose::CreateDirectories,
        state is Opening,
        match reply {
            WalkReply::OpenFailed(source) => source.kind == SafeIoKind::NotFound,
            WalkReply::AttributesFailed(source) => source.kind == SafeIoKind::NotFound,
            _ => false,
        },
{
}

} // verus!
