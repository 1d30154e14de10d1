//! The logger that forwards records to the managed runtime's log sink.

use vstd::prelude::*;
use jni::objects::{GlobalRef, JClass, JString};
use jni::{AttachGuard, JNIEnv, JavaVM};
use crate::levels::LogLevel;
use vstd::string::StringExecFns;
use crate::logger::{
    format_record, forwarded_level, forwarded_level_number, library_tag, library_tag_text, record_text,
};

verus! {

#[verifier::external_type_specification]
#[verifier::external_body]
pub struct ExJNIEnv<'a>(JNIEnv<'a>);

#[verifier::external_type_specification]
#[verifier::external_body]
pub struct ExJavaVM(JavaVM);

#[verifier::external_type_specification]
#[verifier::external_body]
pub struct ExAttachGuard<'a>(AttachGuard<'a>);

#[verifier::external_type_specification]
#[verifier::external_body]
pub struct ExGlobalRef(GlobalRef);

#[verifier::external_type_specification]
#[verifier::external_body]
pub struct ExJClass<'a>(JClass<'a>);

#[verifier::external_type_specification]
#[verifier::external_body]
pub struct ExJString<'a>(JString<'a>);

#[verifier::external_type_specification]
#[verifier::external_body]
pub struct ExJniError(jni::errors::Error);

/// Relies on `JNIEnv::get_java_vm`: the virtual machine that the
/// environment belongs to, or the host's error.
#[verifier::external_body]
fn java_vm_of(env: &JNIEnv) -> (r: Result<JavaVM, jni::errors::Error>) {
    env.get_java_vm()
}

/// Relies on `JNIEnv::new_global_ref`: a reference to the class that stays
/// valid beyond the current call, or the host's error.
#[verifier::external_body]
fn global_ref_of<'a>(env: &JNIEnv<'a>, class: JClass<'a>) -> (r: Result<GlobalRef, jni::errors::Error>) {
    env.new_global_ref(class)
}

/// Relies on `JavaVM::attach_current_thread`: the calling thread attached
/// to the virtual machine for the life of the guard, or the host's error.
#[verifier::external_body]
fn attach_current_thread(vm: &JavaVM) -> (r: Result<AttachGuard<'_>, jni::errors::Error>) {
    vm.attach_current_thread()
}

/// Relies on `AttachGuard`'s `Deref`: the environment of the attached thread.
#[verifier::external_body]
fn attached_env<'g, 'a>(guard: &'g AttachGuard<'a>) -> (r: &'g JNIEnv<'a>) {
    &**guard
}

/// Relies on `JNIEnv::new_string`: a host string with the same text, or the
/// host's error.
#[verifier::external_body]
fn new_host_string<'a>(env: &JNIEnv<'a>, text: &str) -> (r: Result<JString<'a>, jni::errors::Error>) {
    env.new_string(text)
}

/// Relies on `JNIEnv::call_static_method`: calls the static method `name`
/// with signature `sig` of `class` with an integer and two strings; the
/// returned value is dropped.
#[verifier::external_body]
fn call_sink<'a>(
    env: &JNIEnv<'a>,
    class: &GlobalRef,
    name: &str,
    sig: &str,
    level: i32,
    tag: JString<'a>,
    message: JString<'a>,
) -> (r: Result<(), jni::errors::Error>) {
    let args = [
        jni::objects::JValue::Int(level),
        jni::objects::JValue::Object(tag.into()),
        jni::objects::JValue::Object(message.into()),
    ];
    env.call_static_method(class, name, sig, &args).map(|_| ())
}

/// Relies on `JNIEnv::exception_check`: whether a host exception is pending.
#[verifier::external_body]
fn exception_pending(env: &JNIEnv) -> (r: Result<bool, jni::errors::Error>) {
    env.exception_check()
}

/// Relies on `JNIEnv::exception_clear`: the pending host exception, if any,
/// is discarded.
#[verifier::external_body]
fn clear_exception(env: &JNIEnv) -> (r: Result<(), jni::errors::Error>) {
    env.exception_clear()
}

/// A log record, as the bridge reads it.
#[derive(Debug, Clone, PartialEq, Eq)]
pub struct LogRecord {
    pub level: LogLevel,
    pub file: Option<String>,
    pub line: Option<u32>,
    pub message: String,
}

/// The arguments with which the host's sink is called.
#[derive(Debug, Clone, PartialEq, Eq)]
pub struct SinkCall {
    /// The host number of the record's level.
    pub level: i32,
    /// The library's tag.
    pub tag: String,
    /// The text `file:line: message`.
    pub message: String,
}

/// The file of a record as text, if known.
pub open spec fn file_text(file: Option<String>) -> Option<Seq<char>> {
    match file {
        Some(f) => Some(f@),
        None => None,
    }
}

/// `call` holds the arguments that forward `record`.
pub open spec fn forwards(call: SinkCall, record: LogRecord) -> bool {
    &&& call.level == forwarded_level_number(record.level)
    &&& call.tag@ == library_tag()
    &&& call.message@ == record_text(file_text(record.file), record.line, record.message@)
}

/// The arguments with which the sink is called for a record.
pub fn sink_call(record: &LogRecord) -> (r: SinkCall)
    ensures
        forwards(r, *record),
{
    let file = match &record.file {
        Some(f) => Some(f.as_str()),
        None => None,
    };
    SinkCall {
        level: forwarded_level(record.level),
        tag: library_tag_text(),
        message: format_record(file, record.line, record.message.as_str()),
    }
}

/// The name of the host's static log method.
pub open spec fn sink_method() -> Seq<char> {
    "log"@
}

/// The host signature of that method: an integer and two strings, no result.
pub open spec fn sink_signature() -> Seq<char> {
    "(ILjava/lang/String;Ljava/lang/String;)V"@
}

/// What follows the call into the host's log sink.
pub enum SinkFollowUp<E> {
    /// The sink threw: the exception is cleared, and the record counts as
    /// forwarded, so that a failing sink is never logged to again.
    ClearException,
    /// No exception is pending: the call's own outcome stands.
    Finish(Result<(), E>),
}

/// Decides what follows the call into the sink, from its outcome and
/// whether a host exception is pending.
pub fn after_sink_call<E>(call: Result<(), E>, pending: bool) -> (r: SinkFollowUp<E>)
    ensures
        pending ==> r is ClearException,
        !pending ==> r == SinkFollowUp::Finish(call),
{
    if pending {
        SinkFollowUp::ClearException
    } else {
        SinkFollowUp::Finish(call)
    }
}

/// A logger that forwards records to a static method of a host class.
pub struct JniLogger {
    vm: JavaVM,
    logger_class: GlobalRef,
    method: String,
    signature: String,
}

impl JniLogger {
    /// The name of the sink method this logger calls.
    pub closed spec fn spec_method(&self) -> Seq<char> {
        self.method@
    }

    /// The host signature of the sink method this logger calls.
    pub closed spec fn spec_signature(&self) -> Seq<char> {
        self.signature@
    }

    /// Keeps the environment's virtual machine and a lasting reference to
    /// the sink class, whose static `log(int, String, String)` receives the
    /// records.
    pub fn new(env: JNIEnv, logger_class: JClass) -> (r: Result<JniLogger, jni::errors::Error>)
        ensures
            r matches Ok(logger) ==> logger.spec_method() == sink_method()
                && logger.spec_signature() == sink_signature(),
    {
        let vm = java_vm_of(&env)?;
        let logger_class = global_ref_of(&env, logger_class)?;
        Ok(
            JniLogger {
                vm,
                logger_class,
                method: String::from_str("log"),
                signature: String::from_str("(ILjava/lang/String;Ljava/lang/String;)V"),
            },
        )
    }

    /// Forwards one record: attaches the calling thread and calls the sink
    /// with the host number of the record's level, the library's tag and
    /// the text `file:line: message`. An exception thrown by the sink is
    /// cleared, not passed on. On success, returns the arguments the sink
    /// was called with.
    pub fn log_impl(&self, record: &LogRecord) -> (r: Result<SinkCall, jni::errors::Error>)
        ensures
            r matches Ok(call) ==> forwards(call, *record),
    {
        let call = sink_call(record);
        let guard = attach_current_thread(&self.vm)?;
        let env = attached_env(&guard);
        let tag = new_host_string(env, call.tag.as_str())?;
        let message = new_host_string(env, call.message.as_str())?;
        let result = call_sink(
            env,
            &self.logger_class,
            self.method.as_str(),
            self.signature.as_str(),
            call.level,
            tag,
            message,
        );
        let pending = exception_pending(env)?;
        match after_sink_call(result, pending) {
            SinkFollowUp::ClearException => {
                clear_exception(env)?;
                Ok(call)
            },
            SinkFollowUp::Finish(outcome) => {
                outcome?;
                Ok(call)
            },
        }
    }
}

} // verus!
