use vstd::prelude::*;
use jni::errors::Error;
use jni::objects::{JClass, JObject};
use jni::JNIEnv;

use crate::jvm::{
    call_method, call_static_method, find_class, get_static_field, new_object, new_string,
    null_object, value_into_object, Bridge, Call,
};
use crate::model::Step;

verus! {

/// The view of an optional string argument.
pub open spec fn opt_view(s: Option<&str>) -> Option<Seq<char>> {
    match s {
        Some(t) => Some(t@),
        None => None,
    }
}

/// `after` holds `before` as its first entries.
pub open spec fn extends<'a>(before: Seq<Call<'a>>, after: Seq<Call<'a>>) -> bool {
    &&& before.len() <= after.len()
    &&& forall|j: int| 0 <= j < before.len() ==> after[j] == before[j]
}

/// Entry `i` of `log` is a lookup of the class `name`.
pub open spec fn class_at<'a>(log: Seq<Call<'a>>, i: int, name: Seq<char>) -> bool {
    i < log.len() && log[i] is FindClass && log[i]->FindClass_name == name
}

/// Entry `i` of `log` allocates a string holding `text`.
pub open spec fn string_at<'a>(log: Seq<Call<'a>>, i: int, text: Seq<char>) -> bool {
    i < log.len() && log[i] is NewString && log[i]->NewString_text == text
}

/// Entry `i` of `log` captures `value` as an object.
pub open spec fn cast_at<'a>(log: Seq<Call<'a>>, i: int, value: jni::objects::JValue<'a>) -> bool {
    i < log.len() && log[i] is Cast && log[i]->Cast_value == value
}

/// From entry `i` of `log` on: `method` is called on `receiver` with `args`,
/// and the value it returned is captured as an object, which `r` holds; or
/// `r` is the error of the one of them that failed, and the log ends there.
pub open spec fn method_then_cast<'a>(
    log: Seq<Call<'a>>,
    i: int,
    receiver: JObject<'a>,
    method: Seq<char>,
    sig: Seq<char>,
    args: Seq<JObject<'a>>,
    r: Result<JObject<'a>, Error>,
) -> bool {
    &&& i < log.len()
    &&& log[i] == Call::CallMethod {
        receiver,
        name: method,
        sig,
        args,
        result: log[i]->CallMethod_result,
    }
    &&& match log[i]->CallMethod_result {
        Err(e) => log.len() == i + 1 && r == Err::<JObject<'a>, Error>(e),
        Ok(v) => log.len() == i + 2 && cast_at(log, i + 1, v) && r == log[i + 1]->Cast_result,
    }
}

/// From entry `i` of `log` on: the static field `action` of the intent
/// class is read, captured as an object, and handed with `extra` to the
/// constructor `sig`, whose result `r` is; or `r` is the error of the one
/// of them that failed, and the log ends there.
pub open spec fn construct_from<'a>(
    log: Seq<Call<'a>>,
    i: int,
    action: Seq<char>,
    sig: Seq<char>,
    extra: Seq<JObject<'a>>,
    r: Result<JObject<'a>, Error>,
) -> bool {
    &&& class_at(log, i, "android/content/Intent"@)
    &&& match log[i]->FindClass_result {
        Err(e) => log.len() == i + 1 && r == Err::<JObject<'a>, Error>(e),
        Ok(c) => {
            &&& i + 1 < log.len()
            &&& log[i + 1] == Call::GetStaticField {
                class: c,
                name: action,
                sig: "Ljava/lang/String;"@,
                result: log[i + 1]->GetStaticField_result,
            }
            &&& match log[i + 1]->GetStaticField_result {
                Err(e) => log.len() == i + 2 && r == Err::<JObject<'a>, Error>(e),
                Ok(v) => {
                    &&& cast_at(log, i + 2, v)
                    &&& match log[i + 2]->Cast_result {
                        Err(e) => log.len() == i + 3 && r == Err::<JObject<'a>, Error>(e),
                        Ok(a) => {
                            &&& log.len() == i + 4
                            &&& log[i + 3] == Call::NewObject {
                                class: c,
                                sig,
                                args: seq![a] + extra,
                                result: r,
                            }
                        },
                    }
                },
            }
        },
    }
}

/// From entry `i` of `log` on: each of `texts` is allocated as a string in
/// turn, then `method` is called on `receiver` with those strings and its
/// returned value captured, as `method_then_cast` says; or `r` is the error
/// of the first allocation that failed, and the log ends there.
pub open spec fn strings_then_method<'a>(
    log: Seq<Call<'a>>,
    i: int,
    texts: Seq<Seq<char>>,
    made: Seq<JObject<'a>>,
    receiver: JObject<'a>,
    method: Seq<char>,
    sig: Seq<char>,
    r: Result<JObject<'a>, Error>,
) -> bool
    decreases texts.len(),
{
    if texts.len() == 0 {
        method_then_cast(log, i, receiver, method, sig, made, r)
    } else {
        &&& string_at(log, i, texts[0])
        &&& match log[i]->NewString_result {
            Err(e) => log.len() == i + 1 && r == Err::<JObject<'a>, Error>(e),
            Ok(s) => strings_then_method(
                log,
                i + 1,
                texts.drop_first(),
                made.push(s),
                receiver,
                method,
                sig,
                r,
            ),
        }
    }
}

/// The handle that an outcome holds, or its error.
pub open spec fn handle_of<'a>(outcome: Result<Intent<'a>, Error>) -> Result<JObject<'a>, Error> {
    match outcome {
        Ok(i) => Ok(i.handle()),
        Err(e) => Err(e),
    }
}

/// What holds of every call that gives `before` the configuration `step`,
/// moving its session from `b0` to `b1`: the platform session stays the
/// same, the earlier log is kept, and on success the request records `step`.
pub open spec fn stepped<'a>(
    before: Intent<'a>,
    step: Step,
    b0: Bridge<'a>,
    b1: Bridge<'a>,
    after: Result<Intent<'a>, Error>,
) -> bool {
    &&& b1.env() == b0.env()
    &&& extends(b0.calls(), b1.calls())
    &&& after is Ok ==> after->Ok_0.steps() == before.steps().push(step)
}

/// The full outcome of `with_extra` on `i` from session `b0` to `b1`.
pub open spec fn extra_post<'a>(
    i: Intent<'a>,
    key: Seq<char>,
    value: Seq<char>,
    b0: Bridge<'a>,
    b1: Bridge<'a>,
    r: Result<Intent<'a>, Error>,
) -> bool {
    &&& stepped(i, Step::Extra { key, value }, b0, b1, r)
    &&& strings_then_method(
        b1.calls(),
        b0.calls().len() as int,
        seq![key, value],
        Seq::empty(),
        i.handle(),
        "putExtra"@,
        "(Ljava/lang/String;Ljava/lang/String;)Landroid/content/Intent;"@,
        handle_of(r),
    )
}

/// The full outcome of `with_class_name` on `i` from session `b0` to `b1`.
pub open spec fn class_name_post<'a>(
    i: Intent<'a>,
    package: Seq<char>,
    class: Seq<char>,
    b0: Bridge<'a>,
    b1: Bridge<'a>,
    r: Result<Intent<'a>, Error>,
) -> bool {
    &&& stepped(i, Step::ClassName { package, class }, b0, b1, r)
    &&& strings_then_method(
        b1.calls(),
        b0.calls().len() as int,
        seq![package, class],
        Seq::empty(),
        i.handle(),
        "setClassName"@,
        "(Ljava/lang/String;Ljava/lang/String;)Landroid/content/Intent;"@,
        handle_of(r),
    )
}

/// The full outcome of `with_type` on `i` from session `b0` to `b1`.
pub open spec fn type_post<'a>(
    i: Intent<'a>,
    mime: Seq<char>,
    b0: Bridge<'a>,
    b1: Bridge<'a>,
    r: Result<Intent<'a>, Error>,
) -> bool {
    &&& stepped(i, Step::MimeType { mime }, b0, b1, r)
    &&& strings_then_method(
        b1.calls(),
        b0.calls().len() as int,
        seq![mime],
        Seq::empty(),
        i.handle(),
        "setType"@,
        "(Ljava/lang/String;)Landroid/content/Intent;"@,
        handle_of(r),
    )
}

/// From entry `i` of `log` on: the intent class is looked up,
/// `createChooser` is called on it with `target` first and the title
/// second (`title` where that is given), and the returned value is
/// captured as an object, which `r` holds; or `r` is the error of the one
/// of them that failed, and the log ends there.
pub open spec fn chooser_from<'a>(
    log: Seq<Call<'a>>,
    i: int,
    target: JObject<'a>,
    title: Option<JObject<'a>>,
    r: Result<JObject<'a>, Error>,
) -> bool {
    &&& class_at(log, i, "android/content/Intent"@)
    &&& match log[i]->FindClass_result {
        Err(e) => log.len() == i + 1 && r == Err::<JObject<'a>, Error>(e),
        Ok(c) => {
            &&& i + 1 < log.len()
            &&& log[i + 1] is CallStatic
            &&& log[i + 1]->CallStatic_class == c
            &&& log[i + 1]->CallStatic_name == "createChooser"@
            &&& log[i + 1]->CallStatic_sig
                == "(Landroid/content/Intent;Ljava/lang/CharSequence;)Landroid/content/Intent;"@
            &&& log[i + 1]->CallStatic_args.len() == 2
            &&& log[i + 1]->CallStatic_args[0] == target
            &&& title is Some ==> log[i + 1]->CallStatic_args[1] == title->Some_0
            &&& match log[i + 1]->CallStatic_result {
                Err(e) => log.len() == i + 2 && r == Err::<JObject<'a>, Error>(e),
                Ok(v) => log.len() == i + 3 && cast_at(log, i + 2, v) && r == log[i + 2]->Cast_result,
            }
        },
    }
}

/// The full outcome of `into_chooser_with_title` on `i` from session `b0`
/// to `b1`: where a title is given it is allocated first; the chooser that
/// the platform returned replaces the handle.
pub open spec fn chooser_post<'a>(
    i: Intent<'a>,
    title: Option<Seq<char>>,
    b0: Bridge<'a>,
    b1: Bridge<'a>,
    r: Result<Intent<'a>, Error>,
) -> bool {
    let log = b1.calls();
    let n = b0.calls().len() as int;
    &&& stepped(i, Step::Chooser { title }, b0, b1, r)
    &&& match title {
        None => chooser_from(log, n, i.handle(), None, handle_of(r)),
        Some(t) => {
            &&& string_at(log, n, t)
            &&& match log[n]->NewString_result {
                Err(e) => log.len() == n + 1 && r == Err::<Intent<'a>, Error>(e),
                Ok(s) => chooser_from(log, n + 1, i.handle(), Some(s), handle_of(r)),
            }
        },
    }
}

/// The full outcome of `start_activity` of the request with handle `h`
/// from `activity`: one `startActivity` call, whose result `r` follows.
pub open spec fn start_post<'a>(
    h: JObject<'a>,
    activity: JObject<'a>,
    b0: Bridge<'a>,
    b1: Bridge<'a>,
    r: Result<(), Error>,
) -> bool {
    let n = b0.calls().len() as int;
    let log = b1.calls();
    &&& b1.env() == b0.env()
    &&& extends(b0.calls(), log)
    &&& log.len() == n + 1
    &&& log[n] == Call::CallMethod {
        receiver: activity,
        name: "startActivity"@,
        sig: "(Landroid/content/Intent;)V"@,
        args: seq![h],
        result: log[n]->CallMethod_result,
    }
    &&& match log[n]->CallMethod_result {
        Ok(_) => r == Ok::<(), Error>(()),
        Err(e) => r == Err::<(), Error>(e),
    }
}

/// The full outcome of `new_with_uri` from entry `n` of `log` on: `uri`
/// is allocated as a string and handed to `Uri.parse`, whose result is
/// captured as an object and handed with the action constant to the
/// two-argument constructor, as `construct_from` says; or `r` is the error
/// of the first of them that failed, and the log ends there.
pub open spec fn uri_post<'a>(
    n: int,
    log: Seq<Call<'a>>,
    action: Seq<char>,
    uri: Seq<char>,
    r: Result<JObject<'a>, Error>,
) -> bool {
    &&& string_at(log, n, uri)
    &&& match log[n]->NewString_result {
        Err(e) => log.len() == n + 1 && r == Err::<JObject<'a>, Error>(e),
        Ok(s) => {
            &&& class_at(log, n + 1, "android/net/Uri"@)
            &&& match log[n + 1]->FindClass_result {
                Err(e) => log.len() == n + 2 && r == Err::<JObject<'a>, Error>(e),
                Ok(u) => {
                    &&& n + 2 < log.len()
                    &&& log[n + 2] == Call::CallStatic {
                        class: u,
                        name: "parse"@,
                        sig: "(Ljava/lang/String;)Landroid/net/Uri;"@,
                        args: seq![s],
                        result: log[n + 2]->CallStatic_result,
                    }
                    &&& match log[n + 2]->CallStatic_result {
                        Err(e) => log.len() == n + 3 && r == Err::<JObject<'a>, Error>(e),
                        Ok(v) => {
                            &&& cast_at(log, n + 3, v)
                            &&& match log[n + 3]->Cast_result {
                                Err(e) => log.len() == n + 4 && r == Err::<JObject<'a>, Error>(e),
                                Ok(o) => construct_from(
                                    log,
                                    n + 4,
                                    action,
                                    "(Ljava/lang/String;Landroid/net/Uri;)V"@,
                                    seq![o],
                                    r,
                                ),
                            }
                        },
                    }
                },
            }
        },
    }
}

/// A messaging object you can use to request an action from another android
/// app component.
pub struct Intent<'env> {
    object: JObject<'env>,
    steps: Ghost<Seq<Step>>,
}

impl<'env> Intent<'env> {
    /// The platform object that the request stands for.
    pub closed spec fn handle(&self) -> JObject<'env> {
        self.object
    }

    /// The configuration calls that the request has received, in order.
    pub closed spec fn steps(&self) -> Seq<Step> {
        self.steps@
    }

    pub fn from_object(object: JObject<'env>) -> (r: Self)
        ensures
            r.handle() == object,
            r.steps() == Seq::<Step>::empty(),
    {
        Intent { object, steps: Ghost(Seq::empty()) }
    }

    pub fn new(bridge: &mut Bridge<'env>, action: &str) -> (r: Result<Self, Error>)
        ensures
            final(bridge).env() == old(bridge).env(),
            extends(old(bridge).calls(), final(bridge).calls()),
            construct_from(
                final(bridge).calls(),
                old(bridge).calls().len() as int,
                action@,
                "(Ljava/lang/String;)V"@,
                Seq::empty(),
                handle_of(r),
            ),
            r is Ok ==> r->Ok_0.steps() == seq![Step::Action { action: action@ }],
    {
        let object = match Self::construct(bridge, action, "(Ljava/lang/String;)V", None) {
            Ok(x) => x,
            Err(e) => return Err(e),
        };
        Ok(Intent { object, steps: Ghost(Seq::empty().push(Step::Action { action: action@ })) })
    }

    /// Reads the action constant `action` and constructs a request with it,
    /// followed by `extra` where that is given.
    fn construct(bridge: &mut Bridge<'env>, action: &str, sig: &str, extra: Option<JObject<'env>>)
        -> (r: Result<JObject<'env>, Error>)
        ensures
            final(bridge).env() == old(bridge).env(),
            extends(old(bridge).calls(), final(bridge).calls()),
            construct_from(
                final(bridge).calls(),
                old(bridge).calls().len() as int,
                action@,
                sig@,
                match extra {
                    Some(u) => seq![u],
                    None => Seq::empty(),
                },
                r,
            ),
    {
        let ghost n = old(bridge).calls().len() as int;
        let intent_class = match find_class(bridge, "android/content/Intent") {
            Ok(x) => x,
            Err(e) => {
                assert(class_at(bridge.calls(), n, "android/content/Intent"@));
                return Err(e);
            },
        };
        let action_value = match get_static_field(bridge, intent_class, action, "Ljava/lang/String;") {
            Ok(x) => x,
            Err(e) => return Err(e),
        };
        let action_object = match value_into_object(bridge, action_value) {
            Ok(x) => x,
            Err(e) => return Err(e),
        };
        match extra {
            Some(u) => {
                let args: Vec<JObject<'env>> = vec![action_object, u];
                assert(args@ =~= seq![action_object] + seq![u]);
                let r = new_object(bridge, intent_class, sig, args.as_slice());
                assert(bridge.calls()[n] is FindClass);
                assert(bridge.calls()[n]->FindClass_result == Ok::<JClass, Error>(intent_class));
                assert(bridge.calls()[n + 2]->Cast_result == Ok::<JObject, Error>(action_object));
                r
            },
            None => {
                let args: Vec<JObject<'env>> = vec![action_object];
                assert(args@ =~= seq![action_object] + Seq::<JObject>::empty());
                let r = new_object(bridge, intent_class, sig, args.as_slice());
                assert(bridge.calls()[n] is FindClass);
                assert(bridge.calls()[n]->FindClass_result == Ok::<JClass, Error>(intent_class));
                assert(bridge.calls()[n+2]->Cast_result == Ok::<JObject, Error>(action_object));
                r
            },
        }
    }
}

impl<'env> Intent<'env> {
    pub fn new_with_uri(bridge: &mut Bridge<'env>, action: &str, uri: &str) -> (r: Result<Self, Error>)
        ensures
            final(bridge).env() == old(bridge).env(),
            extends(old(bridge).calls(), final(bridge).calls()),
            uri_post(old(bridge).calls().len() as int, final(bridge).calls(), action@, uri@, handle_of(r)),
            r is Ok ==> r->Ok_0.steps() == seq![Step::ActionWithUri { action: action@, uri: uri@ }],
    {
        let ghost n = old(bridge).calls().len() as int;
        let made_string = new_string(bridge, uri);
        let uri_string = match made_string {
            Ok(x) => x,
            Err(e) => return Err(e),
        };
        let found_class = find_class(bridge, "android/net/Uri");
        assert(bridge.calls()[n]->NewString_result == Ok::<JObject, Error>(uri_string));
        let uri_class = match found_class {
            Ok(x) => x,
            Err(e) => return Err(e),
        };
        let args: Vec<JObject<'env>> = vec![uri_string];
        assert(args@ =~= seq![uri_string]);
        let parsed = call_static_method(
            bridge,
            uri_class,
            "parse",
            "(Ljava/lang/String;)Landroid/net/Uri;",
            args.as_slice(),
        );
        assert(bridge.calls()[n]->NewString_result == Ok::<JObject, Error>(uri_string));
        assert(bridge.calls()[n + 1]->FindClass_result == Ok::<JClass, Error>(uri_class));
        let uri_value = match parsed {
            Ok(x) => x,
            Err(e) => return Err(e),
        };
        let cast = value_into_object(bridge, uri_value);
        assert(bridge.calls()[n]->NewString_result == Ok::<JObject, Error>(uri_string));
        assert(bridge.calls()[n + 1]->FindClass_result == Ok::<JClass, Error>(uri_class));
        assert(bridge.calls()[n + 2]->CallStatic_result == Ok::<jni::objects::JValue, Error>(uri_value));
        let uri_object = match cast {
            Ok(x) => x,
            Err(e) => return Err(e),
        };
        let ghost mid = bridge.calls();
        let constructed = Self::construct(
            bridge,
            action,
            "(Ljava/lang/String;Landroid/net/Uri;)V",
            Some(uri_object),
        );
        assert(bridge.calls()[n] == mid[n]);
        assert(bridge.calls()[n + 1] == mid[n + 1]);
        assert(bridge.calls()[n + 2] == mid[n + 2]);
        assert(bridge.calls()[n + 3] == mid[n + 3]);
        let object = match constructed {
            Ok(x) => x,
            Err(e) => return Err(e),
        };
        Ok(
            Intent {
                object,
                steps: Ghost(Seq::empty().push(Step::ActionWithUri { action: action@, uri: uri@ })),
            },
        )
    }

    /// Takes the object that `returned` holds as the request's handle, and
    /// records `step`.
    fn adopt(self, bridge: &mut Bridge<'env>, returned: jni::objects::JValue<'env>, step: Ghost<Step>)
        -> (r: Result<Self, Error>)
        ensures
            final(bridge).env() == old(bridge).env(),
            final(bridge).calls() == old(bridge).calls().push(
                Call::Cast { value: returned, result: handle_of(r) },
            ),
            r is Ok ==> r->Ok_0.steps() == self.steps().push(step@),
    {
        match value_into_object(bridge, returned) {
            Ok(object) => Ok(Intent { object, steps: Ghost(self.steps@.push(step@)) }),
            Err(e) => Err(e),
        }
    }

    /// Allocates `first` and, where given, `second` as strings, then calls
    /// the setter `method` on the handle with them and takes what it
    /// returned as the handle.
    fn set_strings(
        self,
        bridge: &mut Bridge<'env>,
        method: &str,
        sig: &str,
        first: &str,
        second: Option<&str>,
        step: Ghost<Step>,
    ) -> (r: Result<Self, Error>)
        ensures
            stepped(self, step@, *old(bridge), *final(bridge), r),
            strings_then_method(
                final(bridge).calls(),
                old(bridge).calls().len() as int,
                match second {
                    Some(t) => seq![first@, t@],
                    None => seq![first@],
                },
                Seq::empty(),
                self.handle(),
                method@,
                sig@,
                handle_of(r),
            ),
    {
        reveal_with_fuel(strings_then_method, 3);
        let ghost n = old(bridge).calls().len() as int;
        let ghost texts = match second {
            Some(t) => seq![first@, t@],
            None => seq![first@],
        };
        let made_first = new_string(bridge, first);
        let first_value = match made_first {
            Ok(x) => x,
            Err(e) => return Err(e),
        };
        let args: Vec<JObject<'env>> = match second {
            Some(t) => {
                let made_second = new_string(bridge, t);
                assert(bridge.calls()[n]->NewString_result == Ok::<JObject, Error>(first_value));
                assert(texts.drop_first() =~= seq![t@]);
                let second_value = match made_second {
                    Ok(x) => x,
                    Err(e) => return Err(e),
                };
                assert(texts.drop_first().drop_first() =~= Seq::<Seq<char>>::empty());
                let v: Vec<JObject<'env>> = vec![first_value, second_value];
                assert(v@ =~= Seq::<JObject>::empty().push(first_value).push(second_value));
                v
            },
            None => {
                assert(texts.drop_first() =~= Seq::<Seq<char>>::empty());
                let v: Vec<JObject<'env>> = vec![first_value];
                assert(v@ =~= Seq::<JObject>::empty().push(first_value));
                v
            },
        };
        let ghost before_call = bridge.calls();
        let called = call_method(bridge, self.object, method, sig, args.as_slice());
        assert(bridge.calls()[n] == before_call[n]);
        assert(second is Some ==> bridge.calls()[n + 1] == before_call[n + 1]);
        let returned = match called {
            Ok(x) => x,
            Err(e) => return Err(e),
        };
        self.adopt(bridge, returned, step)
    }

    /// Add extended data to the intent.
    pub fn with_extra(self, bridge: &mut Bridge<'env>, key: &str, value: &str) -> (r: Result<Self, Error>)
        ensures
            extra_post(self, key@, value@, *old(bridge), *final(bridge), r),
    {
        self.set_strings(
            bridge,
            "putExtra",
            "(Ljava/lang/String;Ljava/lang/String;)Landroid/content/Intent;",
            key,
            Some(value),
            Ghost(Step::Extra { key: key@, value: value@ }),
        )
    }

    /// Set the class name for the intent target.
    pub fn with_class_name(self, bridge: &mut Bridge<'env>, package_name: &str, class_name: &str)
        -> (r: Result<Self, Error>)
        ensures
            class_name_post(self, package_name@, class_name@, *old(bridge), *final(bridge), r),
    {
        self.set_strings(
            bridge,
            "setClassName",
            "(Ljava/lang/String;Ljava/lang/String;)Landroid/content/Intent;",
            package_name,
            Some(class_name),
            Ghost(Step::ClassName { package: package_name@, class: class_name@ }),
        )
    }

    /// Set an explicit MIME data type.
    pub fn with_type(self, bridge: &mut Bridge<'env>, mime_type: &str) -> (r: Result<Self, Error>)
        ensures
            type_post(self, mime_type@, *old(bridge), *final(bridge), r),
    {
        self.set_strings(
            bridge,
            "setType",
            "(Ljava/lang/String;)Landroid/content/Intent;",
            mime_type,
            None,
            Ghost(Step::MimeType { mime: mime_type@ }),
        )
    }

    /// Builds a new chooser intent that wraps this one as its target.
    pub fn into_chooser(self, bridge: &mut Bridge<'env>) -> (r: Result<Self, Error>)
        ensures
            chooser_post(self, None, *old(bridge), *final(bridge), r),
    {
        self.into_chooser_with_title(bridge, None)
    }

    /// Builds a new chooser intent with an optional title that wraps this one
    /// as its target. The chooser replaces the request's handle.
    pub fn into_chooser_with_title(self, bridge: &mut Bridge<'env>, title: Option<&str>) -> (r: Result<
        Self,
        Error,
    >)
        ensures
            chooser_post(self, opt_view(title), *old(bridge), *final(bridge), r),
    {
        let ghost n = old(bridge).calls().len() as int;
        let title_value = match title {
            Some(t) => match new_string(bridge, t) {
                Ok(x) => x,
                Err(e) => return Err(e),
            },
            None => null_object(),
        };
        let ghost k = bridge.calls().len() as int;
        let intent_class = match find_class(bridge, "android/content/Intent") {
            Ok(x) => x,
            Err(e) => return Err(e),
        };
        let args: Vec<JObject<'env>> = vec![self.object, title_value];
        let returned = match call_static_method(
            bridge,
            intent_class,
            "createChooser",
            "(Landroid/content/Intent;Ljava/lang/CharSequence;)Landroid/content/Intent;",
            args.as_slice(),
        ) {
            Ok(x) => x,
            Err(e) => {
                assert(bridge.calls()[k]->FindClass_result == Ok::<JClass, Error>(intent_class));
                return Err(e);
            },
        };
        assert(bridge.calls()[k]->FindClass_result == Ok::<JClass, Error>(intent_class));
        self.adopt(bridge, returned, Ghost(Step::Chooser { title: opt_view(title) }))
    }

    /// Starts the activity that the request asks for, from `activity`, the
    /// component that is active now.
    pub fn start_activity(self, bridge: &mut Bridge<'env>, activity: JObject<'env>) -> (r: Result<(), Error>)
        ensures
            start_post(self.handle(), activity, *old(bridge), *final(bridge), r),
    {
        let args: Vec<JObject<'env>> = vec![self.object];
        assert(args@ =~= seq![self.object]);
        match call_method(
            bridge,
            activity,
            "startActivity",
            "(Landroid/content/Intent;)V",
            args.as_slice(),
        ) {
            Ok(_) => Ok(()),
            Err(e) => Err(e),
        }
    }
}

/// A failed chain stays as it was: `after` has the same error, and the same
/// session log, as `before`.
pub open spec fn keeps_failure<'a>(before: IntentBuilder<'a>, after: IntentBuilder<'a>) -> bool {
    before.outcome() is Err ==> after.outcome() == before.outcome() && after.session()
        == before.session()
}

/// Once a chain of builder calls has failed, every later call keeps the
/// first error and makes no platform call, however many calls follow:
/// `chain[i + 1]` is what a builder call made of `chain[i]`.
pub proof fn lemma_failed_chain_is_fixed<'a>(chain: Seq<IntentBuilder<'a>>)
    requires
        chain.len() > 0,
        chain[0].outcome() is Err,
        forall|i: int| 0 <= i < chain.len() - 1 ==> #[trigger] keeps_failure(chain[i], chain[i + 1]),
    ensures
        forall|i: int|
            0 <= i < chain.len() ==> #[trigger] chain[i].outcome() == chain[0].outcome()
                && chain[i].session() == chain[0].session(),
    decreases chain.len(),
{
    if chain.len() > 1 {
        let rest = chain.drop_last();
        lemma_failed_chain_is_fixed(rest);
        let last = chain.len() - 1;
        let j = last - 1;
        assert(keeps_failure(chain[j], chain[j + 1]));
        assert forall|i: int| 0 <= i < chain.len() implies #[trigger] chain[i].outcome()
            == chain[0].outcome() && chain[i].session() == chain[0].session() by {
            assert(rest[0] == chain[0]);
            if i < last {
                assert(rest[i] == chain[i]);
            } else {
                assert(rest[last - 1] == chain[last - 1]);
            }
        }
    }
}

/// Builder for intents that allows to capture the error at the end: once a
/// call has failed, the chain keeps that error and makes no further call.
#[must_use]
pub struct IntentBuilder<'env> {
    bridge: Option<Bridge<'env>>,
    inner: Result<Intent<'env>, Error>,
}

impl<'env> IntentBuilder<'env> {
    #[verifier::type_invariant]
    closed spec fn live_has_session(self) -> bool {
        self.inner is Ok ==> self.bridge is Some
    }

    /// The live request, or the first error of the chain.
    pub closed spec fn outcome(&self) -> Result<Intent<'env>, Error> {
        self.inner
    }

    /// The session that the chain calls through; a chain that failed before
    /// it had one has none.
    pub closed spec fn session(&self) -> Option<Bridge<'env>> {
        self.bridge
    }

    /// A chain that has already failed with `error`.
    pub fn from_error(error: Error) -> (r: Self)
        ensures
            r.outcome() == Err::<Intent<'env>, Error>(error),
            r.session() is None,
    {
        IntentBuilder { bridge: None, inner: Err(error) }
    }

    pub fn from_object(env: JNIEnv<'env>, object: JObject<'env>) -> (r: Self)
        ensures
            r.outcome() is Ok,
            r.outcome()->Ok_0.handle() == object,
            r.outcome()->Ok_0.steps() == Seq::<Step>::empty(),
            r.session() is Some,
            r.session()->Some_0.env() == env,
            r.session()->Some_0.calls() == Seq::<Call<'env>>::empty(),
    {
        IntentBuilder { bridge: Some(Bridge::new(env)), inner: Ok(Intent::from_object(object)) }
    }

    pub fn new(env: JNIEnv<'env>, action: &str) -> (r: Self)
        ensures
            r.session() is Some,
            r.session()->Some_0.env() == env,
            construct_from(
                r.session()->Some_0.calls(),
                0,
                action@,
                "(Ljava/lang/String;)V"@,
                Seq::empty(),
                handle_of(r.outcome()),
            ),
            r.outcome() is Ok ==> r.outcome()->Ok_0.steps() == seq![Step::Action { action: action@ }],
    {
        let mut b = Bridge::new(env);
        let inner = Intent::new(&mut b, action);
        IntentBuilder { bridge: Some(b), inner }
    }

    pub fn new_with_uri(env: JNIEnv<'env>, action: &str, uri: &str) -> (r: Self)
        ensures
            r.session() is Some,
            r.session()->Some_0.env() == env,
            uri_post(0, r.session()->Some_0.calls(), action@, uri@, handle_of(r.outcome())),
            r.outcome() is Ok ==> r.outcome()->Ok_0.steps() == seq![
                Step::ActionWithUri { action: action@, uri: uri@ },
            ],
    {
        let mut b = Bridge::new(env);
        let inner = Intent::new_with_uri(&mut b, action, uri);
        IntentBuilder { bridge: Some(b), inner }
    }

    /// Set the class name for the intent target.
    pub fn with_class_name(self, package_name: &str, class_name: &str) -> (r: Self)
        ensures
            keeps_failure(self, r),
            self.outcome() is Ok ==> r.session() is Some && class_name_post(self.outcome()->Ok_0, package_name@, class_name@, self.session()->Some_0, r.session()->Some_0, r.outcome()),
    {
        proof {
            use_type_invariant(&self);
        }
        let IntentBuilder { bridge, inner } = self;
        match inner {
            Ok(intent) => match bridge {
                Some(mut b) => {
                    let outcome = intent.with_class_name(&mut b, package_name, class_name);
                    IntentBuilder { bridge: Some(b), inner: outcome }
                },
                None => {
                    proof {
                        assert(false);
                    }
                    IntentBuilder { bridge: None, inner: Ok(intent) }
                },
            },
            Err(e) => IntentBuilder { bridge, inner: Err(e) },
        }
    }

    /// Add extended data to the intent.
    pub fn with_extra(self, key: &str, value: &str) -> (r: Self)
        ensures
            keeps_failure(self, r),
            self.outcome() is Ok ==> r.session() is Some && extra_post(self.outcome()->Ok_0, key@, value@, self.session()->Some_0, r.session()->Some_0, r.outcome()),
    {
        proof {
            use_type_invariant(&self);
        }
        let IntentBuilder { bridge, inner } = self;
        match inner {
            Ok(intent) => match bridge {
                Some(mut b) => {
                    let outcome = intent.with_extra(&mut b, key, value);
                    IntentBuilder { bridge: Some(b), inner: outcome }
                },
                None => {
                    proof {
                        assert(false);
                    }
                    IntentBuilder { bridge: None, inner: Ok(intent) }
                },
            },
            Err(e) => IntentBuilder { bridge, inner: Err(e) },
        }
    }

    /// Builds a new chooser intent that wraps the target intent.
    pub fn into_chooser(self) -> (r: Self)
        ensures
            keeps_failure(self, r),
            self.outcome() is Ok ==> r.session() is Some && chooser_post(self.outcome()->Ok_0, None, self.session()->Some_0, r.session()->Some_0, r.outcome()),
    {
        proof {
            use_type_invariant(&self);
        }
        let IntentBuilder { bridge, inner } = self;
        match inner {
            Ok(intent) => match bridge {
                Some(mut b) => {
                    let outcome = intent.into_chooser(&mut b);
                    IntentBuilder { bridge: Some(b), inner: outcome }
                },
                None => {
                    proof {
                        assert(false);
                    }
                    IntentBuilder { bridge: None, inner: Ok(intent) }
                },
            },
            Err(e) => IntentBuilder { bridge, inner: Err(e) },
        }
    }

    /// Builds a new chooser intent with an optional title that wraps the
    /// target intent.
    pub fn into_chooser_with_title(self, title: Option<&str>) -> (r: Self)
        ensures
            keeps_failure(self, r),
            self.outcome() is Ok ==> r.session() is Some && chooser_post(self.outcome()->Ok_0, opt_view(title), self.session()->Some_0, r.session()->Some_0, r.outcome()),
    {
        proof {
            use_type_invariant(&self);
        }
        let IntentBuilder { bridge, inner } = self;
        match inner {
            Ok(intent) => match bridge {
                Some(mut b) => {
                    let outcome = intent.into_chooser_with_title(&mut b, title);
                    IntentBuilder { bridge: Some(b), inner: outcome }
                },
                None => {
                    proof {
                        assert(false);
                    }
                    IntentBuilder { bridge: None, inner: Ok(intent) }
                },
            },
            Err(e) => IntentBuilder { bridge, inner: Err(e) },
        }
    }

    /// Set an explicit MIME data type.
    pub fn with_type(self, mime_type: &str) -> (r: Self)
        ensures
            keeps_failure(self, r),
            self.outcome() is Ok ==> r.session() is Some && type_post(self.outcome()->Ok_0, mime_type@, self.session()->Some_0, r.session()->Some_0, r.outcome()),
    {
        proof {
            use_type_invariant(&self);
        }
        let IntentBuilder { bridge, inner } = self;
        match inner {
            Ok(intent) => match bridge {
                Some(mut b) => {
                    let outcome = intent.with_type(&mut b, mime_type);
                    IntentBuilder { bridge: Some(b), inner: outcome }
                },
                None => {
                    proof {
                        assert(false);
                    }
                    IntentBuilder { bridge: None, inner: Ok(intent) }
                },
            },
            Err(e) => IntentBuilder { bridge, inner: Err(e) },
        }
    }

    /// Starts the activity from `activity`, the component that is active
    /// now, or reports the first error of the chain without calling the
    /// platform. Hands back the session, if the chain had one, with the
    /// call in its log.
    pub fn start_activity(self, activity: JObject<'env>) -> (r: (Option<Bridge<'env>>, Result<(), Error>))
        ensures
            self.outcome() is Err ==> r.1 == Err::<(), Error>(self.outcome()->Err_0) && r.0
                == self.session(),
            self.outcome() is Ok ==> r.0 is Some && start_post(
                self.outcome()->Ok_0.handle(),
                activity,
                self.session()->Some_0,
                r.0->Some_0,
                r.1,
            ),
    {
        proof {
            use_type_invariant(&self);
        }
        let IntentBuilder { bridge, inner } = self;
        match inner {
            Ok(intent) => match bridge {
                Some(mut b) => {
                    let started = intent.start_activity(&mut b, activity);
                    (Some(b), started)
                },
                None => {
                    proof {
                        assert(false);
                    }
                    (None, Ok(()))
                },
            },
            Err(e) => (bridge, Err(e)),
        }
    }
}

} // verus!
