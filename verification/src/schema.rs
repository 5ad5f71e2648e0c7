//! Schemas: ordered field lists with a name, a logical type and a
//! nullability flag per column.
//!
//! Field order is significant: it defines the column index correspondence
//! used by batches, cursors and the scan adapter alike.

use vstd::prelude::*;

use crate::types::LogicalType;
use crate::types::arrow_type_to_string;
use crate::types::spec_type_name;
use crate::types::spec_type_of_name;
use crate::types::string_to_arrow_type;

verus! {

/// One column of a schema.
#[derive(Debug)]
pub struct Field {
    pub name: String,
    pub dtype: LogicalType,
    pub nullable: bool,
}

/// The mathematical value of a `Field`.
pub struct FieldV {
    pub name: Seq<char>,
    pub dtype: LogicalType,
    pub nullable: bool,
}

impl View for Field {
    type V = FieldV;

    open spec fn view(&self) -> FieldV {
        FieldV { name: self.name@, dtype: self.dtype, nullable: self.nullable }
    }
}

impl Clone for Field {
    fn clone(&self) -> (r: Self)
        ensures
            r@ == self@,
    {
        Field { name: self.name.clone(), dtype: self.dtype, nullable: self.nullable }
    }
}

impl Field {
    /// Build a field from its parts.
    pub fn new(name: String, dtype: LogicalType, nullable: bool) -> (f: Field)
        ensures
            f@ == (FieldV { name: name@, dtype, nullable }),
    {
        Field { name, dtype, nullable }
    }
}

/// An ordered field list. A schema is captured once, when a dataset is
/// opened or a write session is created, and never changes afterwards.
#[derive(Debug)]
pub struct Schema {
    pub fields: Vec<Field>,
}

impl View for Schema {
    type V = Seq<FieldV>;

    open spec fn view(&self) -> Seq<FieldV> {
        self.fields@.map_values(|f: Field| f@)
    }
}

/// Whether a batch whose fields read `got` is acceptable under a session
/// schema whose fields read `expected`: the column count, the names and the
/// logical types must match exactly, position by position.
pub open spec fn schema_accepts(expected: Seq<FieldV>, got: Seq<FieldV>) -> bool {
    &&& expected.len() == got.len()
    &&& forall|i: int|
        0 <= i < expected.len() ==> {
            &&& (#[trigger] expected[i]).name == got[i].name
            &&& expected[i].dtype == got[i].dtype
        }
}

impl Clone for Schema {
    fn clone(&self) -> (r: Self)
        ensures
            r@ == self@,
    {
        let mut fields: Vec<Field> = Vec::new();
        let n = self.fields.len();
        for i in 0..n
            invariant
                n == self.fields.len(),
                fields@.len() == i,
                forall|j: int| 0 <= j < i ==> (#[trigger] fields@[j])@ == self.fields@[j]@,
        {
            fields.push(self.fields[i].clone());
        }
        let r = Schema { fields };
        proof {
            assert(r@ =~= self@);
        }
        r
    }
}

impl Schema {
    /// Build a schema from its fields.
    pub fn new(fields: Vec<Field>) -> (s: Schema)
        ensures
            s@ == fields@.map_values(|f: Field| f@),
    {
        Schema { fields }
    }

    /// How many fields the schema has.
    pub fn num_fields(&self) -> (n: usize)
        ensures
            n == self@.len(),
    {
        self.fields.len()
    }

    /// The name of the field at `index`, or nothing when the index is out
    /// of bounds.
    pub fn field_name(&self, index: usize) -> (r: Option<&String>)
        ensures
            index < self@.len() ==> (r matches Some(s) && s@ == self@[index as int].name),
            index >= self@.len() ==> r is None,
    {
        if index < self.fields.len() {
            Some(&self.fields[index].name)
        } else {
            None
        }
    }

    /// The boundary string encoding of the type of the field at `index`,
    /// or nothing when the index is out of bounds.
    pub fn field_type_name(&self, index: usize) -> (r: Option<String>)
        ensures
            index < self@.len() ==> (r matches Some(s) && s@ == spec_type_name(
                self@[index as int].dtype,
            )),
            index >= self@.len() ==> r is None,
    {
        if index < self.fields.len() {
            Some(arrow_type_to_string(&self.fields[index].dtype))
        } else {
            None
        }
    }

    /// Whether `other` matches this schema in count, names and types.
    pub fn accepts(&self, other: &Schema) -> (r: bool)
        ensures
            r == schema_accepts(self@, other@),
    {
        if self.fields.len() != other.fields.len() {
            return false;
        }
        let n = self.fields.len();
        for i in 0..n
            invariant
                n == self.fields.len(),
                n == other.fields.len(),
                forall|j: int|
                    0 <= j < i ==> {
                        &&& (#[trigger] self@[j]).name == other@[j].name
                        &&& self@[j].dtype == other@[j].dtype
                    },
        {
            if !(self.fields[i].name == other.fields[i].name) {
                proof {
                    assert(self@[i as int].name != other@[i as int].name);
                }
                return false;
            }
            if !(self.fields[i].dtype == other.fields[i].dtype) {
                proof {
                    assert(self@[i as int].dtype != other@[i as int].dtype);
                }
                return false;
            }
        }
        true
    }
}

/// Build a schema from parallel arrays of column names and type-name
/// strings, as the host hands them across the boundary. Every column is
/// nullable, and an unrecognized type name falls back to the
/// variable-length string type. Nothing is built when the arrays are empty
/// or their lengths disagree.
pub fn duckdb_to_arrow_schema(names: &Vec<String>, types: &Vec<String>) -> (r: Option<Schema>)
    ensures
        r is Some <==> names@.len() == types@.len() && names@.len() > 0,
        r matches Some(s) ==> {
            &&& s@.len() == names@.len()
            &&& forall|i: int|
                0 <= i < s@.len() ==> {
                    &&& (#[trigger] s@[i]).name == names@[i]@
                    &&& s@[i].dtype == spec_type_of_name(types@[i]@)
                    &&& s@[i].nullable
                }
        },
{
    if names.len() == 0 || names.len() != types.len() {
        return None;
    }
    let n = names.len();
    let mut fields: Vec<Field> = Vec::new();
    for i in 0..n
        invariant
            n == names@.len(),
            n == types@.len(),
            fields@.len() == i,
            forall|j: int|
                0 <= j < i ==> {
                    &&& (#[trigger] fields@[j])@.name == names@[j]@
                    &&& fields@[j]@.dtype == spec_type_of_name(types@[j]@)
                    &&& fields@[j]@.nullable
                },
    {
        let dtype = string_to_arrow_type(types[i].as_str());
        fields.push(Field { name: names[i].clone(), dtype, nullable: true });
    }
    Some(Schema { fields })
}

} // verus!
