use vstd::prelude::*;
use vstd::string::*;

verus! {

/// A descriptive value that a feature can carry besides its position.
#[derive(Clone, Copy, Debug, PartialEq, Eq, Structural)]
pub enum Property {
    /// The base name of the photo's file.
    Filename,
    /// The canonical path of the photo's file.
    Path,
    /// The moment the photo was taken, as the camera wrote it.
    Datetime,
}

impl Property {
    /// The name by which the property is asked for, and the key under which a feature
    /// holds it.
    pub open spec fn name_text(self) -> Seq<char> {
        match self {
            Property::Filename => "filename"@,
            Property::Path => "path"@,
            Property::Datetime => "datetime"@,
        }
    }

    /// The name by which the property is asked for, and the key under which a feature
    /// holds it.
    pub fn name(self) -> (text: &'static str)
        ensures
            text@ == self.name_text(),
    {
        match self {
            Property::Filename => "filename",
            Property::Path => "path",
            Property::Datetime => "datetime",
        }
    }

    /// The property of the given name, if there is one.
    pub fn parse(name: &str) -> (out: Option<Property>)
        ensures
            match out {
                Some(property) => property.name_text() == name@,
                None => !is_property_name(name@),
            },
    {
        if same_text(name, "filename") {
            Some(Property::Filename)
        } else if same_text(name, "path") {
            Some(Property::Path)
        } else if same_text(name, "datetime") {
            Some(Property::Datetime)
        } else {
            None
        }
    }
}

/// Whether some property has the name `name`.
pub open spec fn is_property_name(name: Seq<char>) -> bool {
    exists|property: Property| property.name_text() == name
}

/// No two properties share a name.
pub proof fn lemma_names_differ(a: Property, b: Property)
    requires
        a.name_text() == b.name_text(),
    ensures
        a == b,
{
    reveal_strlit("filename");
    reveal_strlit("path");
    reveal_strlit("datetime");
    if a != b {
        assert("filename"@.len() == 8);
        assert("path"@.len() == 4);
        assert("datetime"@.len() == 8);
        assert("filename"@[0] == 'f');
        assert("datetime"@[0] == 'd');
    }
}

/// Whether two texts are the same.
fn same_text(a: &str, b: &str) -> (same: bool)
    ensures
        same == (a@ == b@),
{
    a.to_owned() == b.to_owned()
}

/// Whether every name in `names` is that of a property.
pub open spec fn all_known(names: Seq<String>) -> bool {
    forall|i: int| 0 <= i < names.len() ==> is_property_name(#[trigger] names[i]@)
}

/// The properties that a list of names asks for, in the order of the list, or the first
/// name in it that no property has.
pub fn parse_properties(names: &Vec<String>) -> (out: Result<Vec<Property>, String>)
    ensures
        match out {
            Ok(properties) => {
                &&& properties.len() == names.len()
                &&& forall|i: int|
                    0 <= i < names.len() ==> (#[trigger] properties[i]).name_text() == names[i]@
            },
            Err(unknown) => exists|k: int|
                {
                    &&& 0 <= k < names.len()
                    &&& unknown@ == (#[trigger] names[k])@
                    &&& !is_property_name(names[k]@)
                    &&& all_known(names@.take(k))
                },
        },
{
    let mut properties: Vec<Property> = Vec::new();
    let mut i: usize = 0;
    while i < names.len()
        invariant
            i <= names.len(),
            properties.len() == i,
            forall|j: int| 0 <= j < i ==> (#[trigger] properties[j]).name_text() == names[j]@,
        decreases names.len() - i,
    {
        match Property::parse(names[i].as_str()) {
            Some(property) => properties.push(property),
            None => {
                proof {
                    assert forall|j: int| 0 <= j < names@.take(i as int).len() implies is_property_name(
                        #[trigger] names@.take(i as int)[j]@,
                    ) by {
                        assert(properties[j].name_text() == names[j]@);
                    }
                }
                return Err(names[i].clone());
            },
        }
        i += 1;
    }
    Ok(properties)
}

} // verus!
