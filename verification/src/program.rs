//! Program objects: creation, linking, introspection and uniform upload.

use vstd::prelude::*;
use vstd::string::*;
use vstd::utf8::{decode_utf8, valid_utf8};
use std::marker::PhantomData;
use crate::context::{BindTarget, Context};
use crate::driver::{DriverCall, DriverReply, UniformCall, INFO_LOG_LENGTH, LINK_STATUS, TRUE};
use crate::error::GLError;
use crate::shader::Shader;
use crate::uniform_data::{UniformDatumType, UniformPrimitiveType};

verus! {

/// An owned program handle. It cannot be copied; giving it up yields the one
/// request that destroys the program.
#[derive(Debug)]
pub struct Program {
    gl_id: u32,
}

impl Program {
    #[verifier::type_invariant]
    spec fn valid(self) -> bool {
        self.gl_id > 0
    }

    /// The handle the driver assigned.
    pub closed spec fn handle(self) -> u32 {
        self.gl_id
    }

    /// Wraps the handle the driver returned for a creation request. Zero
    /// means that the driver could not allocate one.
    pub fn from_handle(handle: u32) -> (created: Result<Program, ()>)
        ensures
            created.is_ok() == (handle > 0),
            created matches Ok(program) ==> program.handle() == handle,
    {
        if handle > 0 {
            Ok(Program { gl_id: handle })
        } else {
            Err(())
        }
    }

    /// The handle the driver assigned; never zero.
    pub fn gl_id(&self) -> (id: u32)
        ensures
            id == self.handle(),
            id > 0,
    {
        proof {
            use_type_invariant(self);
        }
        self.gl_id
    }

    /// Gives the program up. The result is the request that destroys it.
    pub fn delete(self) -> (call: DriverCall)
        ensures
            call == (DriverCall::DeleteProgram { program: self.handle() }),
    {
        DriverCall::DeleteProgram { program: self.gl_id }
    }
}

/// The location of a vertex attribute in a linked program.
#[derive(Debug, Clone, Copy)]
pub struct ProgramAttrib {
    pub gl_index: u32,
}

/// The location of a uniform in a linked program.
#[derive(Debug, Clone, Copy)]
pub struct ProgramUniform {
    pub gl_index: u32,
}

impl ProgramAttrib {
    /// Interprets the driver's answer to an attribute lookup: a negative
    /// index means that the program has no such active attribute.
    pub fn from_index(index: i32) -> (found: Result<ProgramAttrib, ()>)
        ensures
            found.is_ok() == (index >= 0),
            found matches Ok(attrib) ==> attrib.gl_index == index,
    {
        if index >= 0 {
            Ok(ProgramAttrib { gl_index: index as u32 })
        } else {
            Err(())
        }
    }
}

impl ProgramUniform {
    /// Interprets the driver's answer to a uniform lookup: a negative index
    /// means that the program has no such active uniform.
    pub fn from_index(index: i32) -> (found: Result<ProgramUniform, ()>)
        ensures
            found.is_ok() == (index >= 0),
            found matches Ok(uniform) ==> uniform.gl_index == index,
    {
        if index >= 0 {
            Ok(ProgramUniform { gl_index: index as u32 })
        } else {
            Err(())
        }
    }
}

/// The text a name is sent as: its encoding followed by one terminator byte.
pub open spec fn terminated(name: Seq<char>) -> Seq<u8> {
    vstd::utf8::encode_utf8(name).push(0u8)
}

/// Whether a name can be sent to the driver: it must not hold the terminator
/// character.
pub open spec fn sendable(name: Seq<char>) -> bool {
    !name.contains('\0')
}

proof fn lemma_scalar_encoding_zero(scalar: u32)
    requires
        vstd::utf8::is_scalar(scalar),
    ensures
        vstd::utf8::encode_scalar(scalar).contains(0u8) <==> scalar == 0,
{
    let s = scalar;
    assert(s <= 0x7F ==> (((s & 0x7F) as u8) == 0u8 <==> s == 0)) by (bit_vector);
    assert((0xC0u8 | ((s >> 6) & 0x1F) as u8) != 0u8) by (bit_vector);
    assert((0xE0u8 | ((s >> 12) & 0x0F) as u8) != 0u8) by (bit_vector);
    assert((0xF0u8 | ((s >> 18) & 0x7) as u8) != 0u8) by (bit_vector);
    assert((0x80u8 | (s & 0x3F) as u8) != 0u8) by (bit_vector);
    assert((0x80u8 | ((s >> 6) & 0x3F) as u8) != 0u8) by (bit_vector);
    assert((0x80u8 | ((s >> 12) & 0x3F) as u8) != 0u8) by (bit_vector);
    let encoded = vstd::utf8::encode_scalar(s);
    if s == 0 {
        assert(encoded[0] == 0u8);
    }
    if encoded.contains(0u8) {
        let i = choose|i: int| 0 <= i < encoded.len() && encoded[i] == 0u8;
        assert(encoded[i] == 0u8);
    }
}

/// The encoding of a name holds the terminator byte exactly when the name
/// holds the terminator character.
pub proof fn lemma_terminator_in_encoding(name: Seq<char>)
    ensures
        vstd::utf8::encode_utf8(name).contains(0u8) <==> name.contains('\0'),
    decreases name.len(),
{
    if name.len() > 0 {
        let head = vstd::utf8::encode_scalar(name[0] as u32);
        let rest = name.drop_first();
        let tail = vstd::utf8::encode_utf8(rest);
        let all = vstd::utf8::encode_utf8(name);
        assert(all == head + tail);
        vstd::utf8::char_is_scalar(name[0]);
        vstd::utf8::char_u32_cast(name[0], name[0] as u32);
        lemma_scalar_encoding_zero(name[0] as u32);
        lemma_terminator_in_encoding(rest);
        if all.contains(0u8) {
            let i = choose|i: int| 0 <= i < all.len() && all[i] == 0u8;
            if i < head.len() {
                assert(head[i] == 0u8);
                assert(name[0] == '\0');
            } else {
                assert(tail[i - head.len()] == 0u8);
                let j = choose|j: int| 0 <= j < rest.len() && rest[j] == '\0';
                assert(name[j + 1] == '\0');
            }
        }
        if name.contains('\0') {
            let j = choose|j: int| 0 <= j < name.len() && name[j] == '\0';
            if j == 0 {
                let k = choose|k: int| 0 <= k < head.len() && head[k] == 0u8;
                assert(all[k] == 0u8);
            } else {
                assert(rest[j - 1] == '\0');
                let k = choose|k: int| 0 <= k < tail.len() && tail[k] == 0u8;
                assert(all[head.len() + k] == 0u8);
            }
        }
    }
}

/// The encoded name with its terminator, or `None` if the name cannot be
/// sent.
pub fn encode_name(name: &str) -> (encoded: Option<Vec<u8>>)
    ensures
        encoded.is_some() == sendable(name@),
        encoded matches Some(bytes) ==> bytes@ == terminated(name@),
{
    let mut bytes = name.as_bytes_vec();
    let mut i: usize = 0;
    while i < bytes.len()
        invariant
            i <= bytes.len(),
            bytes@ == vstd::utf8::encode_utf8(name@),
            forall|j: int| 0 <= j < i ==> bytes@[j] != 0u8,
        decreases bytes.len() - i,
    {
        if bytes[i] == 0 {
            proof {
                lemma_terminator_in_encoding(name@);
            }
            return None;
        }
        i += 1;
    }
    proof {
        lemma_terminator_in_encoding(name@);
    }
    bytes.push(0);
    Some(bytes)
}


/// The message of a link failure for which the driver gave no log.
pub open spec fn unknown_error_text() -> Seq<char> {
    "[Unknown program error]"@
}

/// The info log held by a buffer that the driver filled: everything before
/// the final terminator, decoded, or nothing if that is not valid text.
pub open spec fn info_log_text(buffer: Seq<u8>) -> Option<Seq<char>> {
    if valid_utf8(buffer.drop_last()) {
        Some(decode_utf8(buffer.drop_last()))
    } else {
        None
    }
}

/// The message a link failure carries: the log if there is one and it is
/// not empty, else the fixed fallback.
pub open spec fn link_failure_text(log: Option<Seq<char>>) -> Seq<char> {
    match log {
        Some(text) if text.len() > 0 => text,
        _ => unknown_error_text(),
    }
}

/// The view of an optional string.
pub open spec fn text_of(log: Option<String>) -> Option<Seq<char>> {
    match log {
        Some(s) => Some(s@),
        None => None,
    }
}

/// `String::from_utf8` of the standard library, with its error dropped.
/// Trusted: the bytes are accepted exactly when they are valid UTF-8, and the
/// string then holds the characters they encode.
#[verifier::external_body]
fn decode_text(bytes: Vec<u8>) -> (text: Option<String>)
    ensures
        text.is_some() == valid_utf8(bytes@),
        text matches Some(s) ==> s@ == decode_utf8(bytes@),
{
    match String::from_utf8(bytes) {
        Ok(s) => Some(s),
        Err(_) => None,
    }
}

/// Reads the info log out of a buffer that the driver filled: the final
/// byte, the terminator, is cut off and the rest decoded. Bytes that are not
/// valid text give `None`.
pub fn decode_info_log(buffer: Vec<u8>) -> (log: Option<String>)
    requires
        buffer@.len() > 0,
    ensures
        text_of(log) == info_log_text(buffer@),
{
    let mut bytes = buffer;
    bytes.pop();
    assert(bytes@ == buffer@.drop_last());
    decode_text(bytes)
}

/// The outcome of a link attempt, from the link status and the info log
/// that was fetched after a failure. A failure always carries a message:
/// the log, or the fallback where there is no log or the log is empty.
pub fn link_result(link_status: i32, log: Option<String>) -> (result: Result<(), GLError>)
    ensures
        result.is_ok() == (link_status == TRUE),
        result matches Err(e) ==> e.text() == Some(link_failure_text(text_of(log))),
        result matches Err(e) ==> (e.text() matches Some(text) && text.len() > 0),
{
    proof {
        lemma_link_failure_has_text(text_of(log));
    }
    if link_status == TRUE {
        Ok(())
    } else {
        let fallback = String::from_str("[Unknown program error]");
        let msg = match log {
            Some(s) => if s.as_str().is_empty() {
                fallback
            } else {
                s
            },
            None => fallback,
        };
        Err(GLError::Message(msg))
    }
}

/// Where the retrieval of an info log stands.
#[derive(Debug, Clone, Copy, PartialEq, Eq, Structural)]
pub enum InfoLogState {
    /// The log's length has been asked for.
    Measuring,
    /// The log itself has been asked for, into a buffer of `length` bytes.
    Reading { length: i32 },
}

/// What follows a reply during the retrieval of an info log.
#[derive(Debug)]
pub enum InfoLogNext {
    /// Perform the call and come back with its reply.
    Call(InfoLogState, DriverCall),
    /// The retrieval is over.
    Done(Option<String>),
}

impl InfoLogState {
    /// Whether `reply` is an answer to the call this state waits on: a value
    /// for the length, a buffer of the agreed size for the log.
    pub open spec fn accepts(self, reply: DriverReply) -> bool {
        match (self, reply) {
            (InfoLogState::Measuring, DriverReply::Value(_)) => true,
            (InfoLogState::Reading { length }, DriverReply::Buffer(b)) => length > 0 && b@.len()
                == length,
            _ => false,
        }
    }

    /// Whether `reply` is an answer to the call this state waits on.
    pub fn can_accept(&self, reply: &DriverReply) -> (ok: bool)
        ensures
            ok == self.accepts(*reply),
    {
        match (self, reply) {
            (InfoLogState::Measuring, DriverReply::Value(_)) => true,
            (InfoLogState::Reading { length }, DriverReply::Buffer(b)) => *length > 0 && b.len()
                == *length as usize,
            _ => false,
        }
    }

    /// Takes the retrieval one step on. A length above zero leads to the
    /// fetch of that many bytes; any other length means there is no log. The
    /// fetched buffer is decoded without its terminator.
    pub fn step(self, program: &Program, reply: DriverReply) -> (next: InfoLogNext)
        requires
            self.accepts(reply),
        ensures
            (self, reply) matches (InfoLogState::Measuring, DriverReply::Value(n)) ==> (if n > 0 {
                next == InfoLogNext::Call(
                    InfoLogState::Reading { length: n },
                    DriverCall::GetProgramInfoLog { program: program.handle(), max_length: n },
                )
            } else {
                next == InfoLogNext::Done(None)
            }),
            (self, reply) matches (InfoLogState::Reading { .. }, DriverReply::Buffer(b)) ==> (next
                matches InfoLogNext::Done(log) && text_of(log) == info_log_text(b@)),
    {
        match (self, reply) {
            (InfoLogState::Measuring, DriverReply::Value(n)) => {
                if n > 0 {
                    InfoLogNext::Call(
                        InfoLogState::Reading { length: n },
                        DriverCall::GetProgramInfoLog { program: program.gl_id(), max_length: n },
                    )
                } else {
                    InfoLogNext::Done(None)
                }
            },
            (InfoLogState::Reading { .. }, DriverReply::Buffer(b)) => InfoLogNext::Done(
                decode_info_log(b),
            ),
            _ => InfoLogNext::Done(None),
        }
    }
}

/// Where a link attempt stands.
#[derive(Debug, Clone, Copy, PartialEq, Eq, Structural)]
pub enum LinkState {
    /// The link has been requested.
    Linking,
    /// The link status has been asked for.
    CheckingStatus,
    /// The link failed and its log is being retrieved.
    FetchingLog(InfoLogState),
}

/// What follows a reply during a link attempt.
#[derive(Debug)]
pub enum LinkNext {
    /// Perform the call and come back with its reply.
    Call(LinkState, DriverCall),
    /// The attempt is over.
    Done(Result<(), GLError>),
}

impl LinkState {
    /// Whether `reply` is an answer to the call this state waits on.
    pub open spec fn accepts(self, reply: DriverReply) -> bool {
        match self {
            LinkState::Linking => reply == DriverReply::Nothing,
            LinkState::CheckingStatus => reply is Value,
            LinkState::FetchingLog(inner) => inner.accepts(reply),
        }
    }

    /// Whether `reply` is an answer to the call this state waits on.
    pub fn can_accept(&self, reply: &DriverReply) -> (ok: bool)
        ensures
            ok == self.accepts(*reply),
    {
        match self {
            LinkState::Linking => match reply {
                DriverReply::Nothing => true,
                _ => false,
            },
            LinkState::CheckingStatus => match reply {
                DriverReply::Value(_) => true,
                _ => false,
            },
            LinkState::FetchingLog(inner) => inner.can_accept(reply),
        }
    }

    /// Takes the link attempt one step on: after the link request the status
    /// is asked for; a status of true ends the attempt with success; any
    /// other status starts the retrieval of the info log, whose end is the
    /// failure, carrying the log or, where there is none or it is empty, the
    /// fallback message.
    pub fn step(self, program: &Program, reply: DriverReply) -> (next: LinkNext)
        requires
            self.accepts(reply),
        ensures
            self == LinkState::Linking ==> next == LinkNext::Call(
                LinkState::CheckingStatus,
                DriverCall::GetProgramiv { program: program.handle(), pname: LINK_STATUS },
            ),
            (self, reply) matches (LinkState::CheckingStatus, DriverReply::Value(status)) ==> (
            if status == TRUE {
                next == LinkNext::Done(Ok(()))
            } else {
                next == LinkNext::Call(
                    LinkState::FetchingLog(InfoLogState::Measuring),
                    DriverCall::GetProgramiv { program: program.handle(), pname: INFO_LOG_LENGTH },
                )
            }),
            (self, reply) matches (
                LinkState::FetchingLog(InfoLogState::Measuring),
                DriverReply::Value(n),
            ) ==> (if n > 0 {
                next == LinkNext::Call(
                    LinkState::FetchingLog(InfoLogState::Reading { length: n }),
                    DriverCall::GetProgramInfoLog { program: program.handle(), max_length: n },
                )
            } else {
                next matches LinkNext::Done(Err(e)) && e.text() == Some(unknown_error_text())
            }),
            (self, reply) matches (
                LinkState::FetchingLog(InfoLogState::Reading { .. }),
                DriverReply::Buffer(b),
            ) ==> (next matches LinkNext::Done(Err(e)) && e.text() == Some(
                link_failure_text(info_log_text(b@)),
            )),
            next matches LinkNext::Done(Err(e)) ==> (e.text() matches Some(text) && text.len()
                > 0),
    {
        match self {
            LinkState::Linking => LinkNext::Call(
                LinkState::CheckingStatus,
                DriverCall::GetProgramiv { program: program.gl_id(), pname: LINK_STATUS },
            ),
            LinkState::CheckingStatus => match reply {
                DriverReply::Value(status) => {
                    if status == TRUE {
                        LinkNext::Done(Ok(()))
                    } else {
                        let (state, call) = info_log_request(program);
                        LinkNext::Call(LinkState::FetchingLog(state), call)
                    }
                },
                _ => LinkNext::Done(link_result(0, None)),
            },
            LinkState::FetchingLog(inner) => match inner.step(program, reply) {
                InfoLogNext::Call(state, call) => LinkNext::Call(
                    LinkState::FetchingLog(state),
                    call,
                ),
                InfoLogNext::Done(log) => LinkNext::Done(link_result(0, log)),
            },
        }
    }
}

fn info_log_request(program: &Program) -> (start: (InfoLogState, DriverCall))
    ensures
        start == (
            InfoLogState::Measuring,
            DriverCall::GetProgramiv { program: program.handle(), pname: INFO_LOG_LENGTH },
        ),
{
    (
        InfoLogState::Measuring,
        DriverCall::GetProgramiv { program: program.gl_id(), pname: INFO_LOG_LENGTH },
    )
}

impl Context {
    /// The request that allocates a program. Its reply goes to
    /// [`Program::from_handle`].
    pub fn create_program(&self) -> (call: DriverCall)
        ensures
            call == DriverCall::CreateProgram,
    {
        DriverCall::CreateProgram
    }

    /// The request that attaches `shader` to `program`. The program itself
    /// is left as it was.
    pub fn attach_shader(&self, program: &mut Program, shader: &Shader) -> (call: DriverCall)
        ensures
            call == (DriverCall::AttachShader {
                program: old(program).handle(),
                shader: shader.handle(),
            }),
            final(program).handle() == old(program).handle(),
    {
        DriverCall::AttachShader { program: program.gl_id(), shader: shader.gl_id() }
    }

    /// Starts a link attempt: the link request, and the state that waits on
    /// its reply. [`LinkState::step`] takes it from there.
    pub fn link_program(&self, program: &mut Program) -> (start: (LinkState, DriverCall))
        ensures
            start == (LinkState::Linking, DriverCall::LinkProgram { program: old(program).handle() }),
            final(program).handle() == old(program).handle(),
    {
        (LinkState::Linking, DriverCall::LinkProgram { program: program.gl_id() })
    }

    /// Starts the retrieval of a program's info log: the query for its
    /// length, and the state that waits on the reply. [`InfoLogState::step`]
    /// takes it from there.
    pub fn get_program_info_log(&self, program: &Program) -> (start: (InfoLogState, DriverCall))
        ensures
            start == (
                InfoLogState::Measuring,
                DriverCall::GetProgramiv { program: program.handle(), pname: INFO_LOG_LENGTH },
            ),
    {
        info_log_request(program)
    }

    /// The lookup of a vertex attribute by name. A name that cannot be sent
    /// fails here, and nothing is asked of the driver. The reply goes to
    /// [`ProgramAttrib::from_index`].
    pub fn get_attrib_location(&self, program: &Program, name: &str) -> (lookup: Result<
        DriverCall,
        (),
    >)
        ensures
            lookup.is_ok() == sendable(name@),
            lookup matches Ok(call) ==> (call matches DriverCall::GetAttribLocation {
                program: p,
                name: n,
            } && p == program.handle() && n@ == terminated(name@)),
    {
        match encode_name(name) {
            Some(bytes) => Ok(
                DriverCall::GetAttribLocation { program: program.gl_id(), name: bytes },
            ),
            None => Err(()),
        }
    }

    /// The lookup of a uniform by name. A name that cannot be sent fails
    /// here, and nothing is asked of the driver. The reply goes to
    /// [`ProgramUniform::from_index`].
    pub fn get_uniform_location(&self, program: &Program, name: &str) -> (lookup: Result<
        DriverCall,
        (),
    >)
        ensures
            lookup.is_ok() == sendable(name@),
            lookup matches Ok(call) ==> (call matches DriverCall::GetUniformLocation {
                program: p,
                name: n,
            } && p == program.handle() && n@ == terminated(name@)),
    {
        match encode_name(name) {
            Some(bytes) => Ok(
                DriverCall::GetUniformLocation { program: program.gl_id(), name: bytes },
            ),
            None => Err(()),
        }
    }
}


/// The upload entry point for a datum shape.
pub open spec fn upload_entry(datum_type: UniformDatumType) -> UniformCall {
    match datum_type {
        UniformDatumType::Vec1(UniformPrimitiveType::Float) => UniformCall::Uniform1fv,
        UniformDatumType::Vec1(UniformPrimitiveType::Int) => UniformCall::Uniform1iv,
        UniformDatumType::Vec2(UniformPrimitiveType::Float) => UniformCall::Uniform2fv,
        UniformDatumType::Vec2(UniformPrimitiveType::Int) => UniformCall::Uniform2iv,
        UniformDatumType::Vec3(UniformPrimitiveType::Float) => UniformCall::Uniform3fv,
        UniformDatumType::Vec3(UniformPrimitiveType::Int) => UniformCall::Uniform3iv,
        UniformDatumType::Vec4(UniformPrimitiveType::Float) => UniformCall::Uniform4fv,
        UniformDatumType::Vec4(UniformPrimitiveType::Int) => UniformCall::Uniform4iv,
        UniformDatumType::Matrix2x2 => UniformCall::UniformMatrix2fv,
        UniformDatumType::Matrix3x3 => UniformCall::UniformMatrix3fv,
        UniformDatumType::Matrix4x4 => UniformCall::UniformMatrix4fv,
    }
}

/// The capability to make a program current.
#[derive(Debug)]
pub struct ProgramBinder {
    token: (),
}

/// Evidence that a program is current. It borrows the program and the
/// binder for as long as it lives.
#[derive(Debug)]
pub struct ProgramBinding<'a> {
    program: u32,
    phantom: PhantomData<&'a mut Program>,
}

impl ProgramBinder {
    /// Makes `program` current. The result is the binding and the request
    /// that tells the driver.
    pub fn bind<'a>(&'a mut self, program: &'a mut Program) -> (bound: (
        ProgramBinding<'a>,
        DriverCall,
    ))
        ensures
            bound.0.bound() == old(program).handle(),
            bound.1 == (DriverCall::UseProgram { program: old(program).handle() }),
            final(program).handle() == old(program).handle(),
    {
        let id = program.gl_id();
        (ProgramBinding { program: id, phantom: PhantomData }, DriverCall::UseProgram { program: id })
    }
}

impl<'a> ProgramBinding<'a> {
    /// The handle of the program that is current.
    pub closed spec fn bound(self) -> u32 {
        self.program
    }

    /// The handle of the program that is current.
    pub fn gl_id(&self) -> (id: u32)
        ensures
            id == self.bound(),
    {
        self.program
    }

    /// The upload of `elements` values of shape `datum_type`, held in
    /// `bytes`, to `uniform`. The entry point follows from the shape alone;
    /// the transpose flag is never set. Location and count are passed on in
    /// the driver's signed 32-bit form.
    pub fn set_uniform(
        &self,
        uniform: ProgramUniform,
        datum_type: UniformDatumType,
        elements: usize,
        bytes: Vec<u8>,
    ) -> (call: DriverCall)
        ensures
            call matches DriverCall::Uniform { entry, location, count, transpose, data } && entry
                == upload_entry(datum_type) && location == uniform.gl_index as i32 && count
                == elements as i32 && !transpose && data@ == bytes@,
    {
        let entry = match datum_type {
            UniformDatumType::Vec1(p) => match p {
                UniformPrimitiveType::Float => UniformCall::Uniform1fv,
                UniformPrimitiveType::Int => UniformCall::Uniform1iv,
            },
            UniformDatumType::Vec2(p) => match p {
                UniformPrimitiveType::Float => UniformCall::Uniform2fv,
                UniformPrimitiveType::Int => UniformCall::Uniform2iv,
            },
            UniformDatumType::Vec3(p) => match p {
                UniformPrimitiveType::Float => UniformCall::Uniform3fv,
                UniformPrimitiveType::Int => UniformCall::Uniform3iv,
            },
            UniformDatumType::Vec4(p) => match p {
                UniformPrimitiveType::Float => UniformCall::Uniform4fv,
                UniformPrimitiveType::Int => UniformCall::Uniform4iv,
            },
            UniformDatumType::Matrix2x2 => UniformCall::UniformMatrix2fv,
            UniformDatumType::Matrix3x3 => UniformCall::UniformMatrix3fv,
            UniformDatumType::Matrix4x4 => UniformCall::UniformMatrix4fv,
        };
        DriverCall::Uniform {
            entry,
            location: #[verifier::truncate] (uniform.gl_index as i32),
            count: #[verifier::truncate] (elements as i32),
            transpose: false,
            data: bytes,
        }
    }
}

impl Context {
    /// Takes the program binder out of its slot, if it is there.
    pub fn take_program_binder(&mut self) -> (binder: Option<ProgramBinder>)
        ensures
            binder.is_some() == old(self)@.contains(BindTarget::Program),
            final(self)@ == old(self)@.remove(BindTarget::Program),
    {
        if self.lend(BindTarget::Program) {
            Some(ProgramBinder { token: () })
        } else {
            None
        }
    }

    /// Puts the program binder back into its slot.
    pub fn restore_program_binder(&mut self, binder: ProgramBinder)
        ensures
            final(self)@ == old(self)@.insert(BindTarget::Program),
    {
        self.restore(BindTarget::Program);
    }
}


/// A failed link never comes without a message: whatever log the driver
/// gave, none, an empty one, an undecodable one or a real one, the message
/// is not empty. A log that is not empty is the message; in every other
/// case the message is the fallback.
pub proof fn lemma_link_failure_has_text(log: Option<Seq<char>>)
    ensures
        link_failure_text(log).len() > 0,
        log matches Some(text) ==> (text.len() > 0 ==> link_failure_text(log) == text),
        log is None || log == Some(Seq::<char>::empty()) ==> link_failure_text(log)
            == "[Unknown program error]"@,
{
    reveal_strlit("[Unknown program error]");
}

/// A name that can be sent has its only terminator at the very end of what
/// is sent.
pub proof fn lemma_terminated_ends_name(name: Seq<char>, i: int)
    requires
        sendable(name),
        0 <= i < terminated(name).len(),
    ensures
        (terminated(name)[i] == 0u8) == (i == terminated(name).len() - 1),
{
    let bytes = vstd::utf8::encode_utf8(name);
    lemma_terminator_in_encoding(name);
    if i < bytes.len() {
        assert(bytes.contains(bytes[i]));
    }
}

/// A location that was resolved from the driver's index is handed back to
/// the driver as that same index.
pub proof fn lemma_location_round_trip(index: i32)
    requires
        index >= 0,
    ensures
        (index as u32) as i32 == index,
{
}

/// The shape decides the entry point: different shapes never share one, and
/// exactly the matrix shapes go to the entry points that take a transpose
/// flag.
pub proof fn lemma_upload_entry_distinct(a: UniformDatumType, b: UniformDatumType)
    ensures
        upload_entry(a) == upload_entry(b) ==> a == b,
        upload_entry(a).is_matrix() == (a == UniformDatumType::Matrix2x2 || a
            == UniformDatumType::Matrix3x3 || a == UniformDatumType::Matrix4x4),
{
}

} // verus!
