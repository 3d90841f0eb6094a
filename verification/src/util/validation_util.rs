//! Flattening of validation errors into translatable messages.

use vstd::prelude::*;
use crate::text::{copy_text, opt_view, str_eq};
use crate::util::message_util::{message_text, message_text_of, MessageLookup};

verus! {

/// A message key with its arguments, when it has any.
pub type Message = (String, Option<Vec<(String, String)>>);

/// One failed validation rule of a field.
pub struct ValidationError {
    /// The rule that failed, such as `range` or `length`.
    pub code: String,
    /// The message key to report, when the rule names one.
    pub message: Option<String>,
    /// The rule's parameters, each value written as JSON text.
    pub params: Vec<(String, String)>,
}

/// What failed under one field.
pub enum ValidationErrorsKind {
    /// A nested struct failed.
    Struct(Box<ValidationErrors>),
    /// Elements of a nested list failed, in index order.
    List(Vec<ValidationErrors>),
    /// Rules of the field itself failed.
    Field(Vec<ValidationError>),
}

/// The failures of a validated value, field by field.
pub struct ValidationErrors {
    pub errors: Vec<(String, ValidationErrorsKind)>,
}

/// A message key and its arguments as texts.
pub type MessageView = (Seq<char>, Option<Seq<(Seq<char>, Seq<char>)>>);

pub open spec fn pairs_view(v: Seq<(String, String)>) -> Seq<(Seq<char>, Seq<char>)> {
    v.map_values(|p: (String, String)| (p.0@, p.1@))
}

pub open spec fn message_view(m: Message) -> MessageView {
    (
        m.0@,
        match m.1 {
            Some(a) => Some(pairs_view(a@)),
            None => None,
        },
    )
}

pub open spec fn messages_view(v: Seq<Message>) -> Seq<MessageView> {
    v.map_values(|m: Message| message_view(m))
}

/// The value of the first parameter with the given name.
pub open spec fn param(params: Seq<(String, String)>, name: Seq<char>) -> Option<Seq<char>>
    decreases params.len(),
{
    if params.len() == 0 {
        None
    } else if params[0].0@ == name {
        Some(params[0].1@)
    } else {
        param(params.drop_first(), name)
    }
}

/// The named parameter as a message argument, when present.
pub open spec fn arg(params: Seq<(String, String)>, name: Seq<char>) -> Seq<(Seq<char>, Seq<char>)> {
    match param(params, name) {
        Some(v) => seq![(name, v)],
        None => seq![],
    }
}

/// The message arguments of a failed rule: `min` and `max` for a range; `equal`, or
/// else `min` and `max`, for a length; none for other rules.
pub open spec fn error_args(e: ValidationError) -> Seq<(Seq<char>, Seq<char>)> {
    let p = e.params@;
    if e.code@ == "range"@ {
        arg(p, "min"@) + arg(p, "max"@)
    } else if e.code@ == "length"@ {
        if param(p, "equal"@) is Some {
            arg(p, "equal"@)
        } else {
            arg(p, "min"@) + arg(p, "max"@)
        }
    } else {
        seq![]
    }
}

/// The arguments of a failed rule name each key once, as the map they stand for does.
pub proof fn lemma_error_args_keys_distinct(e: ValidationError)
    ensures
        forall|i: int, j: int|
            0 <= i < j < error_args(e).len() ==> #[trigger] error_args(e)[i].0 != #[trigger] error_args(e)[j].0,
{
    reveal_strlit("min");
    reveal_strlit("max");
    assert("min"@ != "max"@) by {
        assert("min"@[1] != "max"@[1]);
    }
}

/// The messages of the failed rules of a field: one for each rule that names a message.
pub open spec fn field_messages(fs: Seq<ValidationError>) -> Seq<MessageView>
    decreases fs.len(),
{
    if fs.len() == 0 {
        seq![]
    } else {
        field_messages(fs.drop_last()) + match fs.last().message {
            Some(m) => seq![(m@, Some(error_args(fs.last())))],
            None => Seq::<MessageView>::empty(),
        }
    }
}

/// All messages of a value's failures, field after field, depth first.
pub open spec fn flatten_errors(e: ValidationErrors) -> Seq<MessageView>
    decreases e, 0int,
{
    flatten_entries(e.errors@)
}

pub open spec fn flatten_entries(s: Seq<(String, ValidationErrorsKind)>) -> Seq<MessageView>
    decreases s, 0int,
{
    if s.len() == 0 {
        seq![]
    } else {
        flatten_entries(s.drop_last()) + flatten_kind(s.last().1)
    }
}

pub open spec fn flatten_kind(k: ValidationErrorsKind) -> Seq<MessageView>
    decreases k, 0int,
{
    match k {
        ValidationErrorsKind::Field(fs) => field_messages(fs@),
        ValidationErrorsKind::Struct(b) => flatten_errors(*b),
        ValidationErrorsKind::List(items) => flatten_list(items@),
    }
}

pub open spec fn flatten_list(s: Seq<ValidationErrors>) -> Seq<MessageView>
    decreases s, 0int,
{
    if s.len() == 0 {
        seq![]
    } else {
        flatten_list(s.drop_last()) + flatten_errors(s.last())
    }
}

fn find_param(params: &Vec<(String, String)>, name: &str) -> (res: Option<String>)
    ensures
        opt_view(res) == param(params@, name@),
{
    let mut i: usize = 0;
    assert(params@.subrange(0, params@.len() as int) =~= params@);
    while i < params.len()
        invariant
            i <= params@.len(),
            param(params@, name@) == param(params@.subrange(i as int, params@.len() as int), name@),
        decreases params@.len() - i,
    {
        proof {
            let t = params@.subrange(i as int, params@.len() as int);
            assert(t.drop_first() =~= params@.subrange(i + 1, params@.len() as int));
            assert(t[0] == params@[i as int]);
        }
        if str_eq(params[i].0.as_str(), name) {
            return Some(copy_text(params[i].1.as_str()));
        }
        i = i + 1;
    }
    None
}

fn push_arg(args: &mut Vec<(String, String)>, params: &Vec<(String, String)>, name: &str)
    ensures
        pairs_view(final(args)@) == pairs_view(old(args)@) + arg(params@, name@),
{
    let ghost a0 = args@;
    match find_param(params, name) {
        Some(v) => {
            args.push((copy_text(name), v));
            assert(pairs_view(args@) =~= pairs_view(a0) + arg(params@, name@));
        },
        None => {
            assert(pairs_view(args@) =~= pairs_view(a0) + arg(params@, name@));
        },
    }
}

/// The message of one failed rule: its message key with the rule's arguments (see
/// `error_args`); nothing when the rule names no message.
pub fn validate_entity_recursive_impl(val: &ValidationError) -> (res: Result<(), Message>)
    ensures
        match val.message {
            Some(m) => match res {
                Err(e) => message_view(e) == (m@, Some(error_args(*val))),
                Ok(_) => false,
            },
            None => res is Ok,
        },
{
    let mut args: Vec<(String, String)> = Vec::new();
    assert(pairs_view(args@) =~= Seq::<(Seq<char>, Seq<char>)>::empty());
    if str_eq(val.code.as_str(), "range") {
        push_arg(&mut args, &val.params, "min");
        push_arg(&mut args, &val.params, "max");
        assert(pairs_view(args@) =~= error_args(*val));
    } else if str_eq(val.code.as_str(), "length") {
        if find_param(&val.params, "equal").is_some() {
            push_arg(&mut args, &val.params, "equal");
            assert(pairs_view(args@) =~= error_args(*val));
        } else {
            push_arg(&mut args, &val.params, "min");
            push_arg(&mut args, &val.params, "max");
            assert(pairs_view(args@) =~= error_args(*val));
        }
    }
    match &val.message {
        Some(message_key) => Err((copy_text(message_key.as_str()), Some(args))),
        None => Ok(()),
    }
}

/// Appends the messages of all failures of `validation_errors` to `error_msgs`, field
/// after field and depth first (see `flatten_errors`).
pub fn validate_entity_recursive(validation_errors: &ValidationErrors, error_msgs: &mut Vec<Message>)
    ensures
        messages_view(final(error_msgs)@) == messages_view(old(error_msgs)@) + flatten_errors(*validation_errors),
    decreases *validation_errors, 1int,
{
    let entries = &validation_errors.errors;
    let ghost m0 = messages_view(error_msgs@);
    let mut i: usize = 0;
    while i < entries.len()
        invariant
            i <= entries@.len(),
            entries@ == validation_errors.errors@,
            messages_view(error_msgs@) == m0 + flatten_entries(entries@.take(i as int)),
        decreases entries@.len() - i,
    {
        proof {
            let t = entries@.take(i + 1);
            assert(t.drop_last() =~= entries@.take(i as int));
            assert(t.last() == entries@[i as int]);
        }
        let ghost before = messages_view(error_msgs@);
        match &entries[i].1 {
            ValidationErrorsKind::Field(fields) => {
                let mut j: usize = 0;
                while j < fields.len()
                    invariant
                        j <= fields@.len(),
                        messages_view(error_msgs@) == before + field_messages(fields@.take(j as int)),
                    decreases fields@.len() - j,
                {
                    proof {
                        let t = fields@.take(j + 1);
                        assert(t.drop_last() =~= fields@.take(j as int));
                        assert(t.last() == fields@[j as int]);
                    }
                    let ghost mid = messages_view(error_msgs@);
                    match validate_entity_recursive_impl(&fields[j]) {
                        Ok(()) => {
                            assert(messages_view(error_msgs@) =~= mid + Seq::<MessageView>::empty());
                        },
                        Err(err) => {
                            error_msgs.push(err);
                            assert(messages_view(error_msgs@) =~= mid + seq![message_view(err)]);
                        },
                    }
                    j = j + 1;
                }
                proof {
                    assert(fields@.take(fields@.len() as int) =~= fields@);
                    assert(messages_view(error_msgs@) == before + flatten_kind(entries@[i as int].1));
                }
            },
            ValidationErrorsKind::Struct(nested) => {
                proof {
                    assert(decreases_to!(*validation_errors => validation_errors.errors));
                }
                validate_entity_recursive(nested, error_msgs);
                assert(messages_view(error_msgs@) == before + flatten_kind(entries@[i as int].1));
            },
            ValidationErrorsKind::List(items) => {
                let mut j: usize = 0;
                while j < items.len()
                    invariant
                        j <= items@.len(),
                        i < entries@.len(),
                        entries@ == validation_errors.errors@,
                        entries@[i as int].1 == ValidationErrorsKind::List(*items),
                        messages_view(error_msgs@) == before + flatten_list(items@.take(j as int)),
                    decreases items@.len() - j,
                {
                    proof {
                        let t = items@.take(j + 1);
                        assert(t.drop_last() =~= items@.take(j as int));
                        assert(t.last() == items@[j as int]);
                    }
                    proof {
                        assert(decreases_to!(*validation_errors => validation_errors.errors));
                        assert(decreases_to!(validation_errors.errors => validation_errors.errors@));
                        assert(decreases_to!(validation_errors.errors@ => validation_errors.errors@[i as int]));
                        assert(decreases_to!(validation_errors.errors@[i as int] => validation_errors.errors@[i as int].1));
                        let kind = validation_errors.errors@[i as int].1;
                        assert(decreases_to!(kind => kind->List_0));
                        assert(kind->List_0 == *items);
                        assert(decreases_to!(*items => items@));
                        assert(decreases_to!(items@ => items@[j as int]));
                    }
                    validate_entity_recursive(&items[j], error_msgs);
                    j = j + 1;
                }
                proof {
                    assert(items@.take(items@.len() as int) =~= items@);
                    assert(messages_view(error_msgs@) == before + flatten_kind(entries@[i as int].1));
                }
            },
        }
        proof {
            assert(flatten_entries(entries@.take(i + 1)) == flatten_entries(entries@.take(i as int)) + flatten_kind(entries@[i as int].1));
            assert(messages_view(error_msgs@) =~= m0 + flatten_entries(entries@.take(i + 1)));
        }
        i = i + 1;
    }
    proof {
        assert(entries@.take(entries@.len() as int) =~= entries@);
    }
}

/// The lookups hand one outcome to each message of the failures.
pub open spec fn lookups_fit(validation: Result<(), ValidationErrors>, lookups: Seq<MessageLookup>) -> bool {
    match validation {
        Ok(_) => true,
        Err(e) => lookups.len() == flatten_errors(e).len(),
    }
}

/// The outcome of validating a value, translated: nothing when it is valid, else the
/// translated text of each failed rule that names a message, in the order of
/// `flatten_errors`. `lookups[i]` is what looking up the `i`-th message (its key with
/// its arguments) in the caller's language gave.
pub fn validate_entity(validation: &Result<(), ValidationErrors>, lookups: &Vec<MessageLookup>) -> (res: Result<
    (),
    Vec<String>,
>)
    requires
        lookups_fit(*validation, lookups@),
    ensures
        match *validation {
            Ok(_) => res is Ok,
            Err(e) => match res {
                Err(texts) => texts@.len() == flatten_errors(e).len() && forall|i: int|
                    0 <= i < texts@.len() ==> #[trigger] texts@[i]@ == message_text(flatten_errors(e)[i].0, lookups@[i]),
                Ok(_) => false,
            },
        },
{
    match validation {
        Ok(_) => Ok(()),
        Err(validation_errors) => {
            let mut error_msgs: Vec<Message> = Vec::new();
            assert(messages_view(error_msgs@) =~= Seq::<MessageView>::empty());
            validate_entity_recursive(validation_errors, &mut error_msgs);
            assert(messages_view(error_msgs@) =~= flatten_errors(*validation_errors));
            let ghost flat = flatten_errors(*validation_errors);
            let mut texts: Vec<String> = Vec::new();
            let mut i: usize = 0;
            while i < error_msgs.len()
                invariant
                    i <= error_msgs@.len(),
                    messages_view(error_msgs@) == flat,
                    lookups@.len() == flat.len(),
                    texts@.len() == i,
                    forall|j: int| 0 <= j < i ==> #[trigger] texts@[j]@ == message_text(flat[j].0, lookups@[j]),
                decreases error_msgs@.len() - i,
            {
                proof {
                    assert(messages_view(error_msgs@)[i as int] == message_view(error_msgs@[i as int]));
                }
                let text = message_text_of(error_msgs[i].0.as_str(), &lookups[i]);
                texts.push(text);
                i = i + 1;
            }
            Err(texts)
        },
    }
}

} // verus!
