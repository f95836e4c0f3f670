//! Error frames and stacks captured from the C library, and the error type of
//! the crate.

use vstd::prelude::*;
use crate::text::{push_str, string_of};

verus! {

/// Abstract value of an [`ErrorFrame`].
pub struct ErrorFrameView {
    pub desc: Seq<char>,
    pub func: Seq<char>,
    pub major: Seq<char>,
    pub minor: Seq<char>,
    pub description: Seq<char>,
}

/// The one-line description of a frame: `func(): desc`.
pub open spec fn frame_description(func: Seq<char>, desc: Seq<char>) -> Seq<char> {
    func + "(): "@ + desc
}

/// The detailed description of a frame: `Error in func(): desc [major: minor]`.
pub open spec fn frame_detail(f: ErrorFrameView) -> Seq<char> {
    "Error in "@ + f.func + "(): "@ + f.desc + " ["@ + f.major + ": "@ + f.minor + "]"@
}

/// One frame of an error stack of the C library.
#[derive(Clone, Debug)]
pub struct ErrorFrame {
    desc: String,
    func: String,
    major: String,
    minor: String,
    description: String,
}

impl View for ErrorFrame {
    type V = ErrorFrameView;

    closed spec fn view(&self) -> ErrorFrameView {
        ErrorFrameView {
            desc: self.desc@,
            func: self.func@,
            major: self.major@,
            minor: self.minor@,
            description: self.description@,
        }
    }
}

impl ErrorFrame {
    pub fn new(desc: &str, func: &str, major: &str, minor: &str) -> (r: Self)
        ensures
            r@.desc == desc@,
            r@.func == func@,
            r@.major == major@,
            r@.minor == minor@,
            r@.description == frame_description(func@, desc@),
    {
        let mut description = string_of(func);
        push_str(&mut description, "(): ");
        push_str(&mut description, desc);
        ErrorFrame {
            desc: string_of(desc),
            func: string_of(func),
            major: string_of(major),
            minor: string_of(minor),
            description,
        }
    }

    pub fn desc(&self) -> (r: &str)
        ensures
            r@ == self@.desc,
    {
        self.desc.as_str()
    }

    pub fn description(&self) -> (r: &str)
        ensures
            r@ == self@.description,
    {
        self.description.as_str()
    }

    pub fn detail(&self) -> (r: Option<String>)
        ensures
            r matches Some(s) && s@ == frame_detail(self@),
    {
        let mut s = string_of("Error in ");
        push_str(&mut s, self.func.as_str());
        push_str(&mut s, "(): ");
        push_str(&mut s, self.desc.as_str());
        push_str(&mut s, " [");
        push_str(&mut s, self.major.as_str());
        push_str(&mut s, ": ");
        push_str(&mut s, self.minor.as_str());
        push_str(&mut s, "]");
        Some(s)
    }
}

/// Abstract value of an [`ErrorStack`]: its frames (top first) and its
/// summary description.
pub struct ErrorStackView {
    pub frames: Seq<ErrorFrameView>,
    pub description: Option<Seq<char>>,
}

/// The summary description of a stack of frames: the top frame's description,
/// followed by the innermost frame's `desc` when there are several frames.
pub open spec fn stack_description(frames: Seq<ErrorFrameView>) -> Option<Seq<char>> {
    if frames.len() == 0 {
        None
    } else if frames.len() == 1 {
        Some(frames[0].description)
    } else {
        Some(frames[0].description + ": "@ + frames.last().desc)
    }
}

/// A stack of error frames, outermost call first.
#[derive(Clone, Debug)]
pub struct ErrorStack {
    frames: Vec<ErrorFrame>,
    description: Option<String>,
}

impl View for ErrorStack {
    type V = ErrorStackView;

    closed spec fn view(&self) -> ErrorStackView {
        ErrorStackView {
            frames: self.frames@.map_values(|f: ErrorFrame| f@),
            description: match self.description {
                Some(d) => Some(d@),
                None => None,
            },
        }
    }
}

impl ErrorStack {
    pub fn new() -> (r: Self)
        ensures
            r@.frames == Seq::<ErrorFrameView>::empty(),
            r@.description == stack_description(r@.frames),
    {
        ErrorStack { frames: Vec::new(), description: None }
    }

    pub fn len(&self) -> (r: usize)
        ensures
            r == self@.frames.len(),
    {
        self.frames.len()
    }

    pub fn is_empty(&self) -> (r: bool)
        ensures
            r == (self@.frames.len() == 0),
    {
        self.frames.len() == 0
    }

    /// Adds a frame at the bottom of the stack and recomputes the description.
    pub fn push(&mut self, frame: ErrorFrame)
        ensures
            final(self)@.frames == old(self)@.frames.push(frame@),
            final(self)@.description == stack_description(final(self)@.frames),
    {
        let ghost fv = frame@;
        self.frames.push(frame);
        assert(self@.frames =~= old(self)@.frames.push(fv));
        let n = self.frames.len();
        let mut desc = string_of(self.frames[0].description());
        if n == 1 {
            self.description = Some(desc);
        } else {
            push_str(&mut desc, ": ");
            push_str(&mut desc, self.frames[n - 1].desc());
            self.description = Some(desc);
        }
        assert(self@.frames =~= old(self)@.frames.push(fv));
    }

    /// The outermost frame, if any.
    pub fn top(&self) -> (r: Option<&ErrorFrame>)
        ensures
            self@.frames.len() == 0 ==> r is None,
            self@.frames.len() > 0 ==> (r matches Some(f) && f@ == self@.frames[0]),
    {
        if self.frames.len() == 0 {
            None
        } else {
            Some(&self.frames[0])
        }
    }

    pub fn description(&self) -> (r: &str)
        ensures
            r@ == match self@.description {
                Some(d) => d,
                None => "unknown library error"@,
            },
    {
        match &self.description {
            None => "unknown library error",
            Some(d) => d.as_str(),
        }
    }

    /// The detailed description of the outermost frame, if any.
    pub fn detail(&self) -> (r: Option<String>)
        ensures
            self@.frames.len() == 0 ==> r is None,
            self@.frames.len() > 0 ==> (r matches Some(s) && s@ == frame_detail(self@.frames[0])),
    {
        match self.top() {
            None => None,
            Some(f) => f.detail(),
        }
    }
}

impl ErrorStack {
    /// The frame at a position of the stack, outermost first (what indexing
    /// the stack gives; a position past the last frame is out of bounds).
    pub fn index(&self, index: usize) -> (r: &ErrorFrame)
        requires
            index < self@.frames.len(),
        ensures
            r@ == self@.frames[index as int],
    {
        &self.frames[index]
    }
}

/// The error type of the crate.
#[derive(Clone, Debug)]
pub enum Error {
    /// An error reported by the C library, with the stack captured from it:
    /// `None` when one of the stack's messages could not be read.
    HDF5(Option<ErrorStack>),
    /// An error of the high-level API (such as invalid user input).
    Internal(String),
}

/// Abstract value of an [`Error`].
pub enum ErrorView {
    HDF5(Option<ErrorStackView>),
    Internal(Seq<char>),
}

impl View for Error {
    type V = ErrorView;

    open spec fn view(&self) -> ErrorView {
        match self {
            Error::HDF5(s) => ErrorView::HDF5(
                match s {
                    Some(t) => Some(t@),
                    None => None,
                },
            ),
            Error::Internal(m) => ErrorView::Internal(m@),
        }
    }
}

impl ErrorFrame {
    /// A copy of the frame.
    pub fn duplicate(&self) -> (r: Self)
        ensures
            r@ == self@,
    {
        ErrorFrame {
            desc: string_of(self.desc.as_str()),
            func: string_of(self.func.as_str()),
            major: string_of(self.major.as_str()),
            minor: string_of(self.minor.as_str()),
            description: string_of(self.description.as_str()),
        }
    }
}

impl ErrorStack {
    /// A copy of the stack.
    pub fn duplicate(&self) -> (r: Self)
        ensures
            r@ == self@,
    {
        let mut frames: Vec<ErrorFrame> = Vec::new();
        let mut i: usize = 0;
        while i < self.frames.len()
            invariant
                i <= self.frames@.len(),
                frames@.len() == i,
                forall|k: int| 0 <= k < i ==> (#[trigger] frames@[k])@ == self.frames@[k]@,
            decreases self.frames@.len() - i,
        {
            frames.push(self.frames[i].duplicate());
            i = i + 1;
        }
        let description = match &self.description {
            Some(d) => Some(string_of(d.as_str())),
            None => None,
        };
        let r = ErrorStack { frames, description };
        assert(r@.frames =~= self@.frames);
        r
    }
}

impl Error {
    /// A copy of the error.
    pub fn duplicate(&self) -> (r: Self)
        ensures
            r@ == self@,
    {
        match self {
            Error::HDF5(Some(s)) => Error::HDF5(Some(s.duplicate())),
            Error::HDF5(None) => Error::HDF5(None),
            Error::Internal(m) => Error::Internal(string_of(m.as_str())),
        }
    }
}

/// The message of an error: its own text, the description of its stack, or,
/// for a stack whose messages could not be read, a text saying so.
pub open spec fn error_message(e: Error) -> Seq<char> {
    match e {
        Error::Internal(d) => d@,
        Error::HDF5(Some(s)) => match s@.description {
            Some(d) => d,
            None => "unknown library error"@,
        },
        Error::HDF5(None) => "Could not get error stack"@,
    }
}

impl Error {
    /// An error of the high-level API with the given message.
    pub fn internal(msg: String) -> (r: Self)
        ensures
            r matches Error::Internal(m) && m@ == msg@,
    {
        Error::Internal(msg)
    }

    /// The message of this error.
    pub fn message(&self) -> (r: String)
        ensures
            r@ == error_message(*self),
    {
        match self {
            Error::Internal(d) => string_of(d.as_str()),
            Error::HDF5(Some(s)) => string_of(s.description()),
            Error::HDF5(None) => string_of("Could not get error stack"),
        }
    }
}

/// Return codes of the C library that signal failure.
pub trait H5ErrorCode: Copy + Sized {
    /// Whether `value` is a failure code.
    spec fn spec_is_err_code(value: Self) -> bool;

    fn is_err_code(value: Self) -> (r: bool)
        ensures
            r == Self::spec_is_err_code(value);
}

/// Sizes (`hsize_t`): zero signals failure.
impl H5ErrorCode for u64 {
    open spec fn spec_is_err_code(value: u64) -> bool {
        value == 0
    }

    fn is_err_code(value: u64) -> (r: bool) {
        value == 0
    }
}

/// Status codes (`herr_t`): negative values signal failure.
impl H5ErrorCode for i32 {
    open spec fn spec_is_err_code(value: i32) -> bool {
        value < 0
    }

    fn is_err_code(value: i32) -> (r: bool) {
        value < 0
    }
}

/// Identifiers (`hid_t`): negative values signal failure.
impl H5ErrorCode for i64 {
    open spec fn spec_is_err_code(value: i64) -> bool {
        value < 0
    }

    fn is_err_code(value: i64) -> (r: bool) {
        value < 0
    }
}

/// Signed sizes (`ssize_t`): negative values signal failure.
impl H5ErrorCode for isize {
    open spec fn spec_is_err_code(value: isize) -> bool {
        value < 0
    }

    fn is_err_code(value: isize) -> (r: bool) {
        value < 0
    }
}

/// Whether a return code of the C library signals failure.
pub fn is_err_code<T: H5ErrorCode>(value: T) -> (r: bool)
    ensures
        r == T::spec_is_err_code(value),
{
    T::is_err_code(value)
}

/// Turns a return code into a result. `query` is what asking the C library
/// for its current error stack gave (`Err` when no stack could be had); it is
/// used only when `value` signals failure.
pub fn h5check<T: H5ErrorCode>(value: T, query: Result<Error, Error>) -> (r: Result<T, Error>)
    ensures
        !T::spec_is_err_code(value) ==> r == Ok::<T, Error>(value),
        T::spec_is_err_code(value) ==> r == Err::<T, Error>(
            match query {
                Ok(e) => e,
                Err(e) => e,
            },
        ),
{
    if T::is_err_code(value) {
        match query {
            Ok(e) => Err(e),
            Err(e) => Err(e),
        }
    } else {
        Ok(value)
    }
}

} // verus!

verus! {

/// `r` agrees with the abstract outcome `s`: the same value (by view) on
/// success, an internal error with the same message on failure.
pub open spec fn res_matches<T: View>(r: Result<T, Error>, s: Result<T::V, Seq<char>>) -> bool {
    match (r, s) {
        (Ok(a), Ok(b)) => a@ == b,
        (Err(Error::Internal(m)), Err(t)) => m@ == t,
        _ => false,
    }
}

} // verus!

verus! {

/// One frame of the library's error stack as walking the stack reports it:
/// the description and function name, and what asking the library for the
/// major and minor messages gave.
pub struct RawErrorFrame {
    pub desc: String,
    pub func: String,
    pub major: Result<String, Error>,
    pub minor: Result<String, Error>,
}

/// Abstract value of a [`RawErrorFrame`].
pub struct RawErrorFrameView {
    pub desc: Seq<char>,
    pub func: Seq<char>,
    pub major: Result<Seq<char>, ErrorView>,
    pub minor: Result<Seq<char>, ErrorView>,
}

impl View for RawErrorFrame {
    type V = RawErrorFrameView;

    open spec fn view(&self) -> RawErrorFrameView {
        RawErrorFrameView {
            desc: self.desc@,
            func: self.func@,
            major: match self.major {
                Ok(m) => Ok(m@),
                Err(e) => Err(e@),
            },
            minor: match self.minor {
                Ok(m) => Ok(m@),
                Err(e) => Err(e@),
            },
        }
    }
}

/// The frame that a walked frame stands for, or the error met reading its
/// messages (the major message first).
pub open spec fn frame_of(r: RawErrorFrameView) -> Result<ErrorFrameView, ErrorView> {
    match r.major {
        Err(e) => Err(e),
        Ok(major) => match r.minor {
            Err(e) => Err(e),
            Ok(minor) => Ok(ErrorFrameView {
                desc: r.desc,
                func: r.func,
                major,
                minor,
                description: frame_description(r.func, r.desc),
            }),
        },
    }
}

/// The frames of the first `n` walked frames, or the first error met.
pub open spec fn frames_of(w: Seq<RawErrorFrameView>, n: nat) -> Result<Seq<ErrorFrameView>, ErrorView>
    decreases n,
{
    if n == 0 || n > w.len() {
        Ok(Seq::empty())
    } else {
        match frames_of(w, (n - 1) as nat) {
            Err(e) => Err(e),
            Ok(p) => match frame_of(w[n - 1]) {
                Err(e) => Err(e),
                Ok(f) => Ok(p.push(f)),
            },
        }
    }
}

/// What querying the current error stack gives: an error when it could not
/// be copied (`stack_id` negative) or a message could not be read, nothing
/// when it holds no frame, and the stack otherwise.
pub open spec fn spec_query(stack_id: i64, w: Seq<RawErrorFrameView>) -> Result<Option<Seq<ErrorFrameView>>, ErrorView> {
    if stack_id < 0 {
        Err(ErrorView::Internal("failed to copy the current error stack"@))
    } else {
        match frames_of(w, w.len()) {
            Err(e) => Err(e),
            Ok(f) => if f.len() == 0 {
                Ok(None)
            } else {
                Ok(Some(f))
            },
        }
    }
}

proof fn lemma_frames_err(w: Seq<RawErrorFrameView>, n: nat, k: nat)
    requires
        n <= k <= w.len(),
        frames_of(w, n) is Err,
    ensures
        frames_of(w, k) == frames_of(w, n),
    decreases k - n,
{
    if n < k {
        lemma_frames_err(w, n, (k - 1) as nat);
    }
}

proof fn lemma_frames_len(w: Seq<RawErrorFrameView>, n: nat)
    requires
        n <= w.len(),
        frames_of(w, n) is Ok,
    ensures
        frames_of(w, n)->Ok_0.len() == n,
    decreases n,
{
    if n > 0 {
        lemma_frames_len(w, (n - 1) as nat);
    }
}

/// What taking the current error stack as an error gives: an error when the
/// stack could not be copied (`stack_id` negative), and otherwise an error of
/// the C library holding the stack's frames, or no frames when one of the
/// stack's messages cannot be read.
pub open spec fn spec_error_of_query(stack_id: i64, w: Seq<RawErrorFrameView>) -> Result<ErrorView, ErrorView> {
    if stack_id < 0 {
        Err(ErrorView::Internal("Could not get errorstack"@))
    } else {
        match frames_of(w, w.len()) {
            Ok(f) => Ok(ErrorView::HDF5(Some(ErrorStackView { frames: f, description: stack_description(f) }))),
            Err(_) => Ok(ErrorView::HDF5(None)),
        }
    }
}

/// The error that the current error stack describes: `stack_id` is the
/// identifier of its copy (negative when it could not be copied) and `walk`
/// what walking the copy reported.
pub fn error_of_query(stack_id: i64, walk: Vec<RawErrorFrame>) -> (r: Result<Error, Error>)
    ensures
        match (r, spec_error_of_query(stack_id, walk@.map_values(|f: RawErrorFrame| f@))) {
            (Ok(e), Ok(v)) => e@ == v,
            (Err(e), Err(v)) => e@ == v,
            _ => false,
        },
{
    if stack_id < 0 {
        return Err(Error::Internal(string_of("Could not get errorstack")));
    }
    match ErrorStack::into_stack(walk) {
        Ok(stack) => Ok(Error::HDF5(Some(stack))),
        Err(_) => Ok(Error::HDF5(None)),
    }
}

impl ErrorStack {
    /// The stack made of the frames a walk of the library's stack reported,
    /// outermost first; the first frame whose messages cannot be read makes
    /// it fail with that error.
    pub fn into_stack(walk: Vec<RawErrorFrame>) -> (r: Result<ErrorStack, Error>)
        ensures
            match (r, frames_of(walk@.map_values(|f: RawErrorFrame| f@), walk@.len())) {
                (Ok(s), Ok(f)) => s@.frames == f && s@.description == stack_description(f),
                (Err(e), Err(g)) => e@ == g,
                _ => false,
            },
    {
        let ghost w = walk@.map_values(|f: RawErrorFrame| f@);
        let mut stack = ErrorStack::new();
        let mut i: usize = 0;
        while i < walk.len()
            invariant
                i <= walk@.len(),
                w == walk@.map_values(|f: RawErrorFrame| f@),
                frames_of(w, i as nat) == Ok::<Seq<ErrorFrameView>, ErrorView>(stack@.frames),
                stack@.description == stack_description(stack@.frames),
            decreases walk@.len() - i,
        {
            let raw = &walk[i];
            assert(w[i as int] == raw@);
            let major = match &raw.major {
                Ok(m) => m.as_str(),
                Err(e) => {
                    proof {
                        lemma_frames_err(w, (i + 1) as nat, w.len());
                    }
                    return Err(e.duplicate());
                },
            };
            let minor = match &raw.minor {
                Ok(m) => m.as_str(),
                Err(e) => {
                    proof {
                        lemma_frames_err(w, (i + 1) as nat, w.len());
                    }
                    return Err(e.duplicate());
                },
            };
            let frame = ErrorFrame::new(raw.desc.as_str(), raw.func.as_str(), major, minor);
            stack.push(frame);
            i = i + 1;
        }
        Ok(stack)
    }

    /// Queries the current error stack: `stack_id` is the identifier of its
    /// copy (negative when it could not be copied) and `walk` what walking
    /// the copy reported.
    pub fn query(stack_id: i64, walk: Vec<RawErrorFrame>) -> (r: Result<Option<ErrorStack>, Error>)
        ensures
            match (r, spec_query(stack_id, walk@.map_values(|f: RawErrorFrame| f@))) {
                (Ok(Some(s)), Ok(Some(f))) => s@.frames == f && s@.description == stack_description(f),
                (Ok(None), Ok(None)) => true,
                (Err(e), Err(g)) => e@ == g,
                _ => false,
            },
    {
        if stack_id < 0 {
            return Err(Error::Internal(string_of("failed to copy the current error stack")));
        }
        let ghost w = walk@.map_values(|f: RawErrorFrame| f@);
        let n = walk.len();
        proof {
            if frames_of(w, w.len()) is Ok {
                lemma_frames_len(w, w.len());
            }
        }
        let stack = Self::into_stack(walk)?;
        if stack.is_empty() {
            Ok(None)
        } else {
            Ok(Some(stack))
        }
    }
}

} // verus!
