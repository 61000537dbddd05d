use vstd::prelude::*;
use jni::errors::Error;
use jni::objects::{JClass, JObject, JValue};
use jni::JNIEnv;

verus! {

#[verifier::external_type_specification]
#[verifier::external_body]
pub struct ExJNIEnv<'a>(JNIEnv<'a>);

#[verifier::external_type_specification]
#[verifier::external_body]
pub struct ExJavaObjectData(jni::sys::_jobject);

#[verifier::external_type_specification]
#[verifier::external_body]
pub struct ExJObject<'a>(JObject<'a>);

#[verifier::external_type_specification]
#[verifier::external_body]
pub struct ExJClass<'a>(JClass<'a>);

#[verifier::external_type_specification]
#[verifier::external_body]
pub struct ExJValue<'a>(JValue<'a>);

#[verifier::external_type_specification]
#[verifier::external_body]
pub struct ExError(Error);

/// One operation made through a bridge session, with its arguments and the
/// result that the platform gave.
#[allow(inconsistent_fields)]
pub enum Call<'a> {
    /// A class looked up by name.
    FindClass { name: Seq<char>, result: Result<JClass<'a>, Error> },
    /// A static field read.
    GetStaticField {
        class: JClass<'a>,
        name: Seq<char>,
        sig: Seq<char>,
        result: Result<JValue<'a>, Error>,
    },
    /// An object constructed.
    NewObject {
        class: JClass<'a>,
        sig: Seq<char>,
        args: Seq<JObject<'a>>,
        result: Result<JObject<'a>, Error>,
    },
    /// A string allocated from host text.
    NewString { text: Seq<char>, result: Result<JObject<'a>, Error> },
    /// A static method called.
    CallStatic {
        class: JClass<'a>,
        name: Seq<char>,
        sig: Seq<char>,
        args: Seq<JObject<'a>>,
        result: Result<JValue<'a>, Error>,
    },
    /// An instance method called.
    CallMethod {
        receiver: JObject<'a>,
        name: Seq<char>,
        sig: Seq<char>,
        args: Seq<JObject<'a>>,
        result: Result<JValue<'a>, Error>,
    },
    /// A returned value captured as an object handle.
    Cast { value: JValue<'a>, result: Result<JObject<'a>, Error> },
}

/// A method-invocation session on the platform, with the log of the
/// operations made through it.
pub struct Bridge<'a> {
    env: JNIEnv<'a>,
    calls: Ghost<Seq<Call<'a>>>,
}

impl<'a> Bridge<'a> {
    /// The platform session.
    pub closed spec fn env(&self) -> JNIEnv<'a> {
        self.env
    }

    /// The operations made through this session, in order.
    pub closed spec fn calls(&self) -> Seq<Call<'a>> {
        self.calls@
    }

    pub fn new(env: JNIEnv<'a>) -> (r: Self)
        ensures
            r.env() == env,
            r.calls() == Seq::<Call<'a>>::empty(),
    {
        Bridge { env, calls: Ghost(Seq::empty()) }
    }
}

/// Relies on `JNIEnv::find_class`: looks a class up by its binary name.
#[verifier::external_body]
pub(crate) fn find_class<'a>(bridge: &mut Bridge<'a>, name: &str) -> (r: Result<JClass<'a>, Error>)
    ensures
        final(bridge).env() == old(bridge).env(),
        final(bridge).calls() == old(bridge).calls().push(Call::FindClass { name: name@, result: r }),
{
    bridge.env.find_class(name)
}

/// Relies on `JNIEnv::get_static_field`: reads a static field of `class`
/// with type signature `sig`.
#[verifier::external_body]
pub(crate) fn get_static_field<'a>(
    bridge: &mut Bridge<'a>,
    class: JClass<'a>,
    name: &str,
    sig: &str,
) -> (r: Result<JValue<'a>, Error>)
    ensures
        final(bridge).env() == old(bridge).env(),
        final(bridge).calls() == old(bridge).calls().push(
            Call::GetStaticField { class, name: name@, sig: sig@, result: r },
        ),
{
    bridge.env.get_static_field(class, name, sig)
}

/// Relies on `JNIEnv::new_object`: runs the constructor of `class` that has
/// signature `sig` on `args`, each passed as an object value.
#[verifier::external_body]
pub(crate) fn new_object<'a>(
    bridge: &mut Bridge<'a>,
    class: JClass<'a>,
    sig: &str,
    args: &[JObject<'a>],
) -> (r: Result<JObject<'a>, Error>)
    ensures
        final(bridge).env() == old(bridge).env(),
        final(bridge).calls() == old(bridge).calls().push(
            Call::NewObject { class, sig: sig@, args: args@, result: r },
        ),
{
    let args: Vec<JValue<'a>> = args.iter().map(|o| JValue::from(*o)).collect();
    bridge.env.new_object(class, sig, &args)
}

/// Relies on `JNIEnv::new_string`: allocates a Java string holding `s`.
#[verifier::external_body]
pub(crate) fn new_string<'a>(bridge: &mut Bridge<'a>, s: &str) -> (r: Result<JObject<'a>, Error>)
    ensures
        final(bridge).env() == old(bridge).env(),
        final(bridge).calls() == old(bridge).calls().push(Call::NewString { text: s@, result: r }),
{
    bridge.env.new_string(s).map(JObject::from)
}

/// Relies on `JNIEnv::call_static_method`: calls the static method `name`
/// with signature `sig` of `class` on `args`, each passed as an object value.
#[verifier::external_body]
pub(crate) fn call_static_method<'a>(
    bridge: &mut Bridge<'a>,
    class: JClass<'a>,
    name: &str,
    sig: &str,
    args: &[JObject<'a>],
) -> (r: Result<JValue<'a>, Error>)
    ensures
        final(bridge).env() == old(bridge).env(),
        final(bridge).calls() == old(bridge).calls().push(
            Call::CallStatic { class, name: name@, sig: sig@, args: args@, result: r },
        ),
{
    let args: Vec<JValue<'a>> = args.iter().map(|o| JValue::from(*o)).collect();
    bridge.env.call_static_method(class, name, sig, &args)
}

/// Relies on `JNIEnv::call_method`: calls the instance method `name` with
/// signature `sig` on `receiver` with `args`, each passed as an object value.
#[verifier::external_body]
pub(crate) fn call_method<'a>(
    bridge: &mut Bridge<'a>,
    receiver: JObject<'a>,
    name: &str,
    sig: &str,
    args: &[JObject<'a>],
) -> (r: Result<JValue<'a>, Error>)
    ensures
        final(bridge).env() == old(bridge).env(),
        final(bridge).calls() == old(bridge).calls().push(
            Call::CallMethod { receiver, name: name@, sig: sig@, args: args@, result: r },
        ),
{
    let args: Vec<JValue<'a>> = args.iter().map(|o| JValue::from(*o)).collect();
    bridge.env.call_method(receiver, name, sig, &args)
}

/// Relies on `JObject::try_from`: the object held by a returned value, or
/// an error where the value is not an object. The session logs it as one
/// of its operations.
#[verifier::external_body]
pub(crate) fn value_into_object<'a>(bridge: &mut Bridge<'a>, value: JValue<'a>) -> (r: Result<
    JObject<'a>,
    Error,
>)
    ensures
        final(bridge).env() == old(bridge).env(),
        final(bridge).calls() == old(bridge).calls().push(Call::Cast { value, result: r }),
{
    JObject::try_from(value)
}

/// Relies on `JObject::null`: the null reference.
#[verifier::external_body]
pub(crate) fn null_object<'a>() -> (r: JObject<'a>) {
    JObject::null()
}

} // verus!
