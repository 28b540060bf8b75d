//! The column-metadata table a `desc` command renders.

use vstd::prelude::*;

use crate::column::type_text;
use crate::column::Column;
use crate::strutil::dec_digits;

verus! {

/// Renders one column's metadata as a table row.
pub struct ColumnWrapper<'a>(pub &'a Column);

/// The header row of the column-metadata table.
pub open spec fn column_headers() -> Seq<Seq<char>> {
    seq![
        "DisplaySize"@,
        "Name"@,
        "Type"@,
        "Precision"@,
        "Scale"@,
        "CharSize"@,
        "DisplayCharSize"@,
    ]
}

/// The metadata row for one column: its display size, name, type (with a
/// `?` mark when nullable), precision, scale and character sizes.
pub open spec fn column_fields(c: Column) -> Seq<Seq<char>> {
    seq![
        dec_digits(c.display_char_size as nat),
        c.name@,
        type_text(c.type_) + (if c.nullable {
            " ?"@
        } else {
            Seq::<char>::empty()
        }),
        dec_digits(c.precision as nat),
        dec_digits(c.scale as nat),
        dec_digits(c.char_size as nat),
        dec_digits(c.display_char_size as nat),
    ]
}

impl ColumnWrapper<'_> {
    /// The header row of the metadata table.
    pub fn headers() -> (r: Vec<String>)
        ensures
            r.deep_view() == column_headers(),
    {
        let mut out: Vec<String> = Vec::new();
        out.push("DisplaySize".to_owned());
        out.push("Name".to_owned());
        out.push("Type".to_owned());
        out.push("Precision".to_owned());
        out.push("Scale".to_owned());
        out.push("CharSize".to_owned());
        out.push("DisplayCharSize".to_owned());
        assert(out.deep_view() =~= column_headers());
        out
    }

    /// The metadata row for the wrapped column.
    pub fn fields(&self) -> (r: Vec<String>)
        ensures
            r.deep_view() == column_fields(*self.0),
    {
        let mut out: Vec<String> = Vec::new();
        out.push(crate::strutil::usize_dec(self.0.display_char_size));
        out.push(self.0.name.clone());
        let mut ty = self.0.type_.render();
        if self.0.nullable {
            proof {
                reveal_strlit(" ?");
            }
            ty.append(" ?");
        }
        assert(ty@ == type_text(self.0.type_) + (if self.0.nullable {
            " ?"@
        } else {
            Seq::<char>::empty()
        })) by {
            if !self.0.nullable {
                assert(ty@ =~= type_text(self.0.type_) + Seq::<char>::empty());
            }
        }
        out.push(ty);
        out.push(crate::strutil::usize_dec(self.0.precision));
        out.push(crate::strutil::usize_dec(self.0.scale));
        out.push(crate::strutil::usize_dec(self.0.char_size));
        out.push(crate::strutil::usize_dec(self.0.display_char_size));
        assert(out.deep_view() =~= column_fields(*self.0));
        out
    }
}

} // verus!
