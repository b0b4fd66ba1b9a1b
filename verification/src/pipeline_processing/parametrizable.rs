//! The parameters of a node: what a node declares it takes, and the
//! values it is built from once they were held against the declaration.

use crate::pipeline_processing::error::{ConfigFault, Error, ParameterFault};
use crate::pipeline_processing::node::NodeID;
use vstd::prelude::*;

verus! {

/// The kinds of value a parameter can have.
#[derive(Clone, Copy, Debug, PartialEq, Eq, Structural)]
pub enum ParameterType {
    StringParameter,
    BoolParameter,
    /// An integer from the first bound to the second, both included.
    IntRange(i64, i64),
    /// The node that feeds an input.
    NodeInputParameter,
}

/// The value of a parameter.
#[derive(Debug, PartialEq, Eq)]
pub enum ParameterValue {
    StringParameter(String),
    BoolParameter(bool),
    IntRange(i64),
    NodeInputParameter(NodeID),
}

impl Clone for ParameterValue {
    fn clone(&self) -> (copy: Self)
        ensures
            copy == *self,
    {
        match self {
            ParameterValue::StringParameter(text) => ParameterValue::StringParameter(text.clone()),
            ParameterValue::BoolParameter(flag) => ParameterValue::BoolParameter(*flag),
            ParameterValue::IntRange(number) => ParameterValue::IntRange(*number),
            ParameterValue::NodeInputParameter(node) => ParameterValue::NodeInputParameter(*node),
        }
    }
}

/// Whether a parameter has to be given.
#[derive(Debug, Clone, PartialEq, Eq)]
pub enum ParameterTypeDescriptor {
    /// The node cannot be built without it.
    Mandatory(ParameterType),
    /// The node can do without it.
    Optional(ParameterType),
    /// The node takes this value when none is given.
    WithDefault(ParameterType, ParameterValue),
}

impl ParameterType {
    /// Whether `value` is of this kind: of the same variant, and within
    /// the bounds if it is an integer.
    pub open spec fn spec_admits(self, value: ParameterValue) -> bool {
        match (self, value) {
            (ParameterType::StringParameter, ParameterValue::StringParameter(_)) => true,
            (ParameterType::BoolParameter, ParameterValue::BoolParameter(_)) => true,
            (ParameterType::IntRange(low, high), ParameterValue::IntRange(number)) => low
                <= number <= high,
            (ParameterType::NodeInputParameter, ParameterValue::NodeInputParameter(_)) => true,
            _ => false,
        }
    }

    /// What is wrong with `value` as a value of this kind, if anything.
    pub open spec fn spec_fault(self, value: ParameterValue) -> Option<ParameterFault> {
        match (self, value) {
            (ParameterType::StringParameter, ParameterValue::StringParameter(_)) => None,
            (ParameterType::BoolParameter, ParameterValue::BoolParameter(_)) => None,
            (ParameterType::IntRange(low, high), ParameterValue::IntRange(number)) => if low
                <= number <= high {
                None
            } else {
                Some(ParameterFault::OutOfRange { value: number, low, high })
            },
            (ParameterType::NodeInputParameter, ParameterValue::NodeInputParameter(_)) => None,
            _ => Some(ParameterFault::WrongKind),
        }
    }

    /// What is wrong with `value` as a value of this kind, if anything.
    pub fn check(&self, value: &ParameterValue) -> (fault: Option<ParameterFault>)
        ensures
            fault == self.spec_fault(*value),
            fault is None <==> self.spec_admits(*value),
    {
        match (self, value) {
            (ParameterType::StringParameter, ParameterValue::StringParameter(_)) => None,
            (ParameterType::BoolParameter, ParameterValue::BoolParameter(_)) => None,
            (ParameterType::IntRange(low, high), ParameterValue::IntRange(number)) => {
                if *low <= *number && *number <= *high {
                    None
                } else {
                    Some(ParameterFault::OutOfRange { value: *number, low: *low, high: *high })
                }
            },
            (ParameterType::NodeInputParameter, ParameterValue::NodeInputParameter(_)) => None,
            _ => Some(ParameterFault::WrongKind),
        }
    }
}

impl ParameterTypeDescriptor {
    /// The kind of value the parameter takes.
    pub open spec fn spec_kind(self) -> ParameterType {
        match self {
            ParameterTypeDescriptor::Mandatory(kind) => kind,
            ParameterTypeDescriptor::Optional(kind) => kind,
            ParameterTypeDescriptor::WithDefault(kind, _) => kind,
        }
    }

    /// The value a node is built with for what was given under the name of
    /// the parameter: what was given if it is of the declared kind, else
    /// the default if there is one; `None` for an optional parameter that
    /// was not given.
    pub open spec fn spec_resolve(self, given: Option<ParameterValue>) -> Result<
        Option<ParameterValue>,
        ParameterFault,
    > {
        match given {
            Some(value) => match self.spec_kind().spec_fault(value) {
                None => Ok(Some(value)),
                Some(fault) => Err(fault),
            },
            None => match self {
                ParameterTypeDescriptor::Mandatory(_) => Err(ParameterFault::Missing),
                ParameterTypeDescriptor::Optional(_) => Ok(None),
                ParameterTypeDescriptor::WithDefault(_, default) => Ok(Some(default)),
            },
        }
    }

    /// The kind of value the parameter takes.
    pub fn kind(&self) -> (kind: ParameterType)
        ensures
            kind == self.spec_kind(),
    {
        match self {
            ParameterTypeDescriptor::Mandatory(kind) => *kind,
            ParameterTypeDescriptor::Optional(kind) => *kind,
            ParameterTypeDescriptor::WithDefault(kind, _) => *kind,
        }
    }

    /// The value a node is built with for what was given under the name
    /// of the parameter.
    pub fn resolve(&self, given: Option<&ParameterValue>) -> (resolved: Result<
        Option<ParameterValue>,
        ParameterFault,
    >)
        ensures
            resolved == self.spec_resolve(
                match given {
                    Some(value) => Some(*value),
                    None => None,
                },
            ),
    {
        match given {
            Some(value) => match self.kind().check(value) {
                None => Ok(Some(value.clone())),
                Some(fault) => Err(fault),
            },
            None => match self {
                ParameterTypeDescriptor::Mandatory(_) => Err(ParameterFault::Missing),
                ParameterTypeDescriptor::Optional(_) => Ok(None),
                ParameterTypeDescriptor::WithDefault(_, default) => Ok(Some(default.clone())),
            },
        }
    }
}

/// A named value.
#[derive(Debug)]
pub struct NamedValue {
    pub name: String,
    pub value: ParameterValue,
}

/// A declared parameter.
#[derive(Debug)]
pub struct NamedDescriptor {
    pub name: String,
    pub descriptor: ParameterTypeDescriptor,
}

/// The first of `values` under `name`, if there is one.
pub open spec fn first_named(values: Seq<NamedValue>, name: Seq<char>, found: Option<usize>) -> bool {
    match found {
        Some(i) => {
            &&& i < values.len()
            &&& values[i as int].name@ == name
            &&& forall|j: int| 0 <= j < i ==> (#[trigger] values[j]).name@ != name
        },
        None => forall|j: int| 0 <= j < values.len() ==> (#[trigger] values[j]).name@ != name,
    }
}

/// The value given under `name`: the first one, when there are several.
pub open spec fn value_named(values: Seq<NamedValue>, name: Seq<char>) -> Option<ParameterValue>
    decreases values.len(),
{
    if values.len() == 0 {
        None
    } else if values[0].name@ == name {
        Some(values[0].value)
    } else {
        value_named(values.drop_first(), name)
    }
}

proof fn lemma_value_named(values: Seq<NamedValue>, name: Seq<char>, found: Option<usize>)
    requires
        first_named(values, name, found),
    ensures
        value_named(values, name) == match found {
            Some(i) => Some(values[i as int].value),
            None => None,
        },
    decreases values.len(),
{
    if values.len() == 0 {
    } else if values[0].name@ == name {
        if let Some(i) = found {
            if i > 0 {
                assert(values[0].name@ != name);
            }
        }
    } else {
        let rest = values.drop_first();
        let shifted = match found {
            Some(i) => Some((i - 1) as usize),
            None => None,
        };
        assert forall|j: int| 0 <= j < rest.len() implies rest[j] == values[j + 1] by {}
        if let Some(i) = found {
            assert(i > 0);
            assert forall|j: int| 0 <= j < i - 1 implies (#[trigger] rest[j]).name@ != name by {
                assert(values[j + 1].name@ != name);
            }
        } else {
            assert forall|j: int| 0 <= j < rest.len() implies (#[trigger] rest[j]).name@
                != name by {
                assert(values[j + 1].name@ != name);
            }
        }
        lemma_value_named(rest, name, shifted);
    }
}

/// Why no text can be taken under `name`, if none can.
pub open spec fn text_fault(values: Seq<NamedValue>, name: Seq<char>) -> Option<ParameterFault> {
    match value_named(values, name) {
        None => Some(ParameterFault::Missing),
        Some(ParameterValue::StringParameter(_)) => None,
        Some(_) => Some(ParameterFault::WrongKind),
    }
}

/// Why no integer can be taken under `name`, if none can.
pub open spec fn int_fault(values: Seq<NamedValue>, name: Seq<char>) -> Option<ParameterFault> {
    match value_named(values, name) {
        None => Some(ParameterFault::Missing),
        Some(ParameterValue::IntRange(_)) => None,
        Some(_) => Some(ParameterFault::WrongKind),
    }
}

/// Why no flag can be taken under `name`, if none can.
pub open spec fn flag_fault(values: Seq<NamedValue>, name: Seq<char>) -> Option<ParameterFault> {
    match value_named(values, name) {
        None => Some(ParameterFault::Missing),
        Some(ParameterValue::BoolParameter(_)) => None,
        Some(_) => Some(ParameterFault::WrongKind),
    }
}

/// Why no input can be taken under `name`, if none can.
pub open spec fn node_fault(values: Seq<NamedValue>, name: Seq<char>) -> Option<ParameterFault> {
    match value_named(values, name) {
        None => Some(ParameterFault::Missing),
        Some(ParameterValue::NodeInputParameter(_)) => None,
        Some(_) => Some(ParameterFault::WrongKind),
    }
}

/// Taking out a value leaves the values under other names as they were.
pub proof fn lemma_remove_keeps_other_names(values: Seq<NamedValue>, i: int, other: Seq<char>)
    requires
        0 <= i < values.len(),
        values[i].name@ != other,
    ensures
        value_named(values.remove(i), other) == value_named(values, other),
    decreases values.len(),
{
    if i == 0 {
        assert(values.remove(0) =~= values.drop_first());
    } else {
        assert(values.remove(i)[0] == values[0]);
        if values[0].name@ != other {
            assert(values.remove(i).drop_first() =~= values.drop_first().remove(i - 1));
            lemma_remove_keeps_other_names(values.drop_first(), i - 1, other);
        }
    }
}

/// Where the first of `values` under `name` is.
pub fn find_named(values: &Vec<NamedValue>, name: &str) -> (found: Option<usize>)
    ensures
        first_named(values@, name@, found),
        value_named(values@, name@) == match found {
            Some(i) => Some(values@[i as int].value),
            None => None,
        },
{
    let wanted = name.to_owned();
    let mut i: usize = 0;
    let mut found: Option<usize> = None;
    while i < values.len() && found.is_none()
        invariant
            i <= values.len(),
            wanted@ == name@,
            match found {
                Some(k) => first_named(values@, name@, Some(k)),
                None => forall|j: int| 0 <= j < i ==> (#[trigger] values@[j]).name@ != name@,
            },
        decreases values.len() - i + if found is None { 1int } else { 0int },
    {
        if values[i].name == wanted {
            found = Some(i);
        } else {
            i = i + 1;
        }
    }
    proof {
        lemma_value_named(values@, name@, found);
    }
    found
}

/// What a node declares it takes: its parameters, by name.
#[derive(Debug)]
pub struct ParametersDescriptor {
    entries: Vec<NamedDescriptor>,
}

impl View for ParametersDescriptor {
    type V = Seq<NamedDescriptor>;

    closed spec fn view(&self) -> Seq<NamedDescriptor> {
        self.entries@
    }
}

/// The error of a parameter that could not be resolved.
pub open spec fn is_parameter_error(error: Error, name: Seq<char>, fault: ParameterFault) -> bool {
    error matches Error::Config(ConfigFault::Parameter { name: n, fault: f }) && n@ == name && f
        == fault
}

/// Whether the first `count` declared parameters resolve against the
/// given values.
pub open spec fn resolves(declared: Seq<NamedDescriptor>, given: Seq<NamedValue>, count: int) -> bool {
    forall|i: int|
        0 <= i < count ==> (#[trigger] declared[i]).descriptor.spec_resolve(
            value_named(given, declared[i].name@),
        ) is Ok
}

/// The values a node is built with: for each declared parameter that has
/// a value, in the order of the declaration, its name and its value.
pub open spec fn resolved_values(declared: Seq<NamedDescriptor>, given: Seq<NamedValue>) -> Seq<
    (Seq<char>, ParameterValue),
>
    decreases declared.len(),
{
    if declared.len() == 0 {
        Seq::empty()
    } else {
        let last = declared.last();
        let front = resolved_values(declared.drop_last(), given);
        match last.descriptor.spec_resolve(value_named(given, last.name@)) {
            Ok(Some(value)) => front.push((last.name@, value)),
            _ => front,
        }
    }
}

/// The names and values of a list of named values.
pub open spec fn named_pairs(values: Seq<NamedValue>) -> Seq<(Seq<char>, ParameterValue)> {
    Seq::new(values.len(), |i: int| (values[i].name@, values[i].value))
}

impl ParametersDescriptor {
    /// A declaration of no parameters.
    pub fn new() -> (descriptor: Self)
        ensures
            descriptor@.len() == 0,
    {
        ParametersDescriptor { entries: Vec::new() }
    }

    /// The declaration with one more parameter.
    pub fn with(self, name: &str, descriptor: ParameterTypeDescriptor) -> (extended: Self)
        ensures
            extended@.len() == self@.len() + 1,
            forall|i: int| 0 <= i < self@.len() ==> extended@[i] == self@[i],
            extended@.last().name@ == name@,
            extended@.last().descriptor == descriptor,
    {
        let mut entries = self.entries;
        entries.push(NamedDescriptor { name: name.to_owned(), descriptor });
        ParametersDescriptor { entries }
    }

    /// Number of declared parameters.
    pub fn len(&self) -> (len: usize)
        ensures
            len == self@.len(),
    {
        self.entries.len()
    }

    /// The name of a declared parameter.
    pub fn name(&self, index: usize) -> (name: &String)
        requires
            index < self@.len(),
        ensures
            *name == self@[index as int].name,
    {
        &self.entries[index].name
    }

    /// The declaration of a parameter.
    pub fn descriptor(&self, index: usize) -> (descriptor: &ParameterTypeDescriptor)
        requires
            index < self@.len(),
        ensures
            *descriptor == self@[index as int].descriptor,
    {
        &self.entries[index].descriptor
    }

    /// Holds the given values against the declaration.
    ///
    /// Every declared parameter is looked up by name. A value of the wrong
    /// kind or out of range is an error, and so is a mandatory parameter
    /// without value; the first such parameter of the declaration is
    /// reported. Values under names that were not declared are ignored.
    pub fn parse(&self, given: &Vec<NamedValue>) -> (parameters: Result<Parameters, Error>)
        ensures
            match parameters {
                Ok(p) => {
                    &&& resolves(self@, given@, self@.len() as int)
                    &&& named_pairs(p@) == resolved_values(self@, given@)
                },
                Err(e) => exists|i: int|
                    {
                        &&& 0 <= i < self@.len()
                        &&& resolves(self@, given@, i)
                        &&& (#[trigger] self@[i]).descriptor.spec_resolve(
                            value_named(given@, self@[i].name@),
                        ) matches Err(fault)
                        &&& is_parameter_error(e, self@[i].name@, fault)
                    },
            },
    {
        let mut values: Vec<NamedValue> = Vec::new();
        let mut i: usize = 0;
        assert(self@.take(0) =~= Seq::empty());
        assert(named_pairs(values@) =~= resolved_values(self@.take(0), given@));
        while i < self.entries.len()
            invariant
                i <= self.entries.len(),
                resolves(self@, given@, i as int),
                named_pairs(values@) == resolved_values(self@.take(i as int), given@),
            decreases self.entries.len() - i,
        {
            let entry = &self.entries[i];
            let found = find_named(given, entry.name.as_str());
            let value = match found {
                Some(k) => Some(&given[k].value),
                None => None,
            };
            let ghost before = named_pairs(values@);
            proof {
                assert(self@.take(i + 1).drop_last() =~= self@.take(i as int));
                assert(self@.take(i + 1).last() == self@[i as int]);
            }
            match entry.descriptor.resolve(value) {
                Ok(Some(value)) => {
                    values.push(NamedValue { name: entry.name.clone(), value });
                    assert(named_pairs(values@) =~= before.push((entry.name@, value)));
                },
                Ok(None) => {},
                Err(fault) => {
                    return Err(
                        Error::Config(ConfigFault::Parameter { name: entry.name.clone(), fault }),
                    );
                },
            }
            i = i + 1;
        }
        assert(self@.take(i as int) =~= self@);
        Ok(Parameters { values })
    }
}

/// The values a node is built from.
#[derive(Debug)]
pub struct Parameters {
    values: Vec<NamedValue>,
}

impl View for Parameters {
    type V = Seq<NamedValue>;

    closed spec fn view(&self) -> Seq<NamedValue> {
        self.values@
    }
}

impl Parameters {
    /// Whether there is a value under `name`.
    pub fn has(&self, name: &str) -> (has: bool)
        ensures
            has == (value_named(self@, name@) is Some),
    {
        find_named(&self.values, name).is_some()
    }

    /// Takes out the value under `name`. A value can be taken once.
    pub fn take(&mut self, name: &str) -> (value: Result<ParameterValue, Error>)
        ensures
            match value {
                Ok(v) => exists|i: int|
                    {
                        &&& #[trigger] first_named(old(self)@, name@, Some(i as usize))
                        &&& 0 <= i < old(self)@.len()
                        &&& v == old(self)@[i].value
                        &&& value_named(old(self)@, name@) == Some(v)
                        &&& final(self)@ == old(self)@.remove(i)
                    },
                Err(e) => {
                    &&& value_named(old(self)@, name@) is None
                    &&& is_parameter_error(e, name@, ParameterFault::Missing)
                    &&& final(self)@ == old(self)@
                },
            },
            forall|other: Seq<char>|
                other != name@ ==> #[trigger] value_named(final(self)@, other) == value_named(
                    old(self)@,
                    other,
                ),
    {
        match find_named(&self.values, name) {
            Some(i) => {
                let entry = self.values.remove(i);
                proof {
                    assert(first_named(old(self)@, name@, Some(i as int as usize)));
                    assert forall|other: Seq<char>| other != name@ implies #[trigger] value_named(
                        self@,
                        other,
                    ) == value_named(old(self)@, other) by {
                        lemma_remove_keeps_other_names(old(self)@, i as int, other);
                    }
                }
                Ok(entry.value)
            },
            None => Err(
                Error::Config(
                    ConfigFault::Parameter { name: name.to_owned(), fault: ParameterFault::Missing },
                ),
            ),
        }
    }

    /// A copy of the text under `name`, which stays where it is.
    pub fn get_string(&self, name: &str) -> (text: Result<String, Error>)
        ensures
            match text {
                Ok(t) => value_named(self@, name@) == Some(ParameterValue::StringParameter(t)),
                Err(e) => text_fault(self@, name@) matches Some(fault) && is_parameter_error(
                    e,
                    name@,
                    fault,
                ),
            },
    {
        match find_named(&self.values, name) {
            Some(i) => match &self.values[i].value {
                ParameterValue::StringParameter(text) => Ok(text.clone()),
                _ => Err(wrong_kind(name)),
            },
            None => Err(
                Error::Config(
                    ConfigFault::Parameter { name: name.to_owned(), fault: ParameterFault::Missing },
                ),
            ),
        }
    }

    /// Takes out the text under `name`.
    pub fn take_string(&mut self, name: &str) -> (text: Result<String, Error>)
        ensures
            match text {
                Ok(t) => value_named(old(self)@, name@) == Some(ParameterValue::StringParameter(t)),
                Err(e) => match value_named(old(self)@, name@) {
                    None => is_parameter_error(e, name@, ParameterFault::Missing),
                    Some(v) => !(v is StringParameter) && is_parameter_error(
                        e,
                        name@,
                        ParameterFault::WrongKind,
                    ),
                },
            },
            forall|other: Seq<char>|
                other != name@ ==> #[trigger] value_named(final(self)@, other) == value_named(
                    old(self)@,
                    other,
                ),
    {
        match self.take(name) {
            Ok(ParameterValue::StringParameter(text)) => Ok(text),
            Ok(_) => Err(wrong_kind(name)),
            Err(e) => Err(e),
        }
    }

    /// Takes out the flag under `name`.
    pub fn take_bool(&mut self, name: &str) -> (flag: Result<bool, Error>)
        ensures
            match flag {
                Ok(f) => value_named(old(self)@, name@) == Some(ParameterValue::BoolParameter(f)),
                Err(e) => match value_named(old(self)@, name@) {
                    None => is_parameter_error(e, name@, ParameterFault::Missing),
                    Some(v) => !(v is BoolParameter) && is_parameter_error(
                        e,
                        name@,
                        ParameterFault::WrongKind,
                    ),
                },
            },
            forall|other: Seq<char>|
                other != name@ ==> #[trigger] value_named(final(self)@, other) == value_named(
                    old(self)@,
                    other,
                ),
    {
        match self.take(name) {
            Ok(ParameterValue::BoolParameter(flag)) => Ok(flag),
            Ok(_) => Err(wrong_kind(name)),
            Err(e) => Err(e),
        }
    }

    /// Takes out the integer under `name`.
    pub fn take_int(&mut self, name: &str) -> (number: Result<i64, Error>)
        ensures
            match number {
                Ok(n) => value_named(old(self)@, name@) == Some(ParameterValue::IntRange(n)),
                Err(e) => match value_named(old(self)@, name@) {
                    None => is_parameter_error(e, name@, ParameterFault::Missing),
                    Some(v) => !(v is IntRange) && is_parameter_error(
                        e,
                        name@,
                        ParameterFault::WrongKind,
                    ),
                },
            },
            forall|other: Seq<char>|
                other != name@ ==> #[trigger] value_named(final(self)@, other) == value_named(
                    old(self)@,
                    other,
                ),
    {
        match self.take(name) {
            Ok(ParameterValue::IntRange(number)) => Ok(number),
            Ok(_) => Err(wrong_kind(name)),
            Err(e) => Err(e),
        }
    }

    /// Takes out the node that feeds the input `name`.
    pub fn take_node_input(&mut self, name: &str) -> (node: Result<NodeID, Error>)
        ensures
            match node {
                Ok(n) => value_named(old(self)@, name@) == Some(
                    ParameterValue::NodeInputParameter(n),
                ),
                Err(e) => match value_named(old(self)@, name@) {
                    None => is_parameter_error(e, name@, ParameterFault::Missing),
                    Some(v) => !(v is NodeInputParameter) && is_parameter_error(
                        e,
                        name@,
                        ParameterFault::WrongKind,
                    ),
                },
            },
            forall|other: Seq<char>|
                other != name@ ==> #[trigger] value_named(final(self)@, other) == value_named(
                    old(self)@,
                    other,
                ),
    {
        match self.take(name) {
            Ok(ParameterValue::NodeInputParameter(node)) => Ok(node),
            Ok(_) => Err(wrong_kind(name)),
            Err(e) => Err(e),
        }
    }
}

fn wrong_kind(name: &str) -> (error: Error)
    ensures
        is_parameter_error(error, name@, ParameterFault::WrongKind),
{
    Error::Config(ConfigFault::Parameter { name: name.to_owned(), fault: ParameterFault::WrongKind })
}

} // verus!
