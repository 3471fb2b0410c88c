//! Synthesis of the conversion routine from a type's name and its field plans.
use vstd::prelude::*;
use vstd::string::StringExecFns;
use crate::field::{plan_views, statement_text, Field, FieldView};

verus! {

/// The extraction statements of the routine, one line per field, in order.
pub open spec fn statements_text(fields: Seq<FieldView>) -> Seq<char>
    decreases fields.len(),
{
    if fields.len() == 0 {
        Seq::empty()
    } else {
        statements_text(fields.drop_last()) + "        "@ + statement_text(fields.last()) + "\n"@
    }
}

/// The field initialisers of the constructed value, one line per field, in
/// order.
pub open spec fn initializers_text(fields: Seq<FieldView>) -> Seq<char>
    decreases fields.len(),
{
    if fields.len() == 0 {
        Seq::empty()
    } else {
        initializers_text(fields.drop_last()) + "            "@ + fields.last().name + ",\n"@
    }
}

/// The source text of the conversion routine for the type `struct_name`: an
/// implementation of `TryFrom<HashMap<String, String>>` that extracts the
/// fields in order and then builds the value from them.
pub open spec fn impl_text(struct_name: Seq<char>, fields: Seq<FieldView>) -> Seq<char> {
    "impl std::convert::TryFrom<std::collections::HashMap<String, String>> for "@ + struct_name
        + " {\n"@ + "    type Error = std::boxed::Box<dyn std::error::Error>;\n\n"@
        + "    fn try_from(map: std::collections::HashMap<String, String>) -> Result<Self, Self::Error> {\n"@
        + statements_text(fields) + "        Ok(Self {\n"@ + initializers_text(fields)
        + "        })\n"@ + "    }\n"@ + "}\n"@
}

fn generate_statements(fields: &Vec<Field>) -> (text: String)
    ensures
        text@ == statements_text(plan_views(fields@)),
{
    let ghost plans = plan_views(fields@);
    let mut text = String::new();
    let mut i: usize = 0;
    while i < fields.len()
        invariant
            i <= fields.len(),
            plans == plan_views(fields@),
            text@ == statements_text(plans.take(i as int)),
        decreases fields.len() - i,
    {
        let statement = fields[i].generate_deserialize();
        text.append("        ");
        text.append(statement.as_str());
        text.append("\n");
        proof {
            assert(plans.take(i + 1).drop_last() =~= plans.take(i as int));
        }
        i += 1;
    }
    proof {
        assert(plans.take(fields.len() as int) =~= plans);
    }
    text
}

fn generate_initializers(fields: &Vec<Field>) -> (text: String)
    ensures
        text@ == initializers_text(plan_views(fields@)),
{
    let ghost plans = plan_views(fields@);
    let mut text = String::new();
    let mut i: usize = 0;
    while i < fields.len()
        invariant
            i <= fields.len(),
            plans == plan_views(fields@),
            text@ == initializers_text(plans.take(i as int)),
        decreases fields.len() - i,
    {
        text.append("            ");
        text.append(fields[i].ident().as_str());
        text.append(",\n");
        proof {
            assert(plans.take(i + 1).drop_last() =~= plans.take(i as int));
        }
        i += 1;
    }
    proof {
        assert(plans.take(fields.len() as int) =~= plans);
    }
    text
}

/// Writes the conversion routine for the type `struct_name` with the given
/// field plans, which are taken in the order given.
pub fn generate_from_impl(struct_name: &str, fields: &Vec<Field>) -> (text: String)
    ensures
        text@ == impl_text(struct_name@, plan_views(fields@)),
{
    let extract_fields = generate_statements(fields);
    let field_idents = generate_initializers(fields);
    let mut text = String::from_str(
        "impl std::convert::TryFrom<std::collections::HashMap<String, String>> for ",
    );
    text.append(struct_name);
    text.append(" {\n");
    text.append("    type Error = std::boxed::Box<dyn std::error::Error>;\n\n");
    text.append(
        "    fn try_from(map: std::collections::HashMap<String, String>) -> Result<Self, Self::Error> {\n",
    );
    text.append(extract_fields.as_str());
    text.append("        Ok(Self {\n");
    text.append(field_idents.as_str());
    text.append("        })\n");
    text.append("    }\n");
    text.append("}\n");
    text
}

} // verus!
