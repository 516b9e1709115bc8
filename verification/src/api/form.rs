//! The form of a deploy: the uploaded file, the project's name, and the port it gets.

use vstd::prelude::*;
use vstd::string::*;
use vstd::utf8::*;

use crate::api::refusal::Refusal;
use crate::paths;
use crate::runner::bundle;
use crate::text;

verus! {

/// The most bytes that an upload may have: 100 MB.
pub const MAX_BINARY_SIZE: usize = 104_857_600;

// ---------------------------------------------------------------------------------------------
// Names
// ---------------------------------------------------------------------------------------------

/// True for a character that a project's name may hold.
pub open spec fn is_name_char(c: char) -> bool {
    'a' <= c <= 'z' || '0' <= c <= '9' || c == '-'
}

/// True for a text of lower-case letters, digits and hyphens, with no hyphen at either end.
pub open spec fn is_well_spelled(name: Seq<char>) -> bool {
    &&& forall|i: int| 0 <= i < name.len() ==> is_name_char(#[trigger] name[i])
    &&& name.len() > 0 ==> name[0] != '-' && name.last() != '-'
}

/// True for a name that a project can have.
pub open spec fn is_project_name(name: Seq<char>) -> bool {
    name.len() > 0 && is_well_spelled(name)
}

/// True for a text of lower-case letters, digits and hyphens, with no hyphen at either end.
pub fn valid_name(name: &str) -> (r: bool)
    ensures
        r == is_well_spelled(name@),
{
    let v = text::chars_of(name);
    let mut i: usize = 0;
    while i < v.len()
        invariant
            v@ == name@,
            i <= v@.len(),
            forall|j: int| 0 <= j < i ==> is_name_char(#[trigger] name@[j]),
        decreases v@.len() - i,
    {
        let c = v[i];
        if !(('a' <= c && c <= 'z') || ('0' <= c && c <= '9') || c == '-') {
            assert(!is_name_char(name@[i as int]));
            return false;
        }
        i += 1;
    }
    v.len() == 0 || (v[0] != '-' && v[v.len() - 1] != '-')
}

/// The name that was meant, given the text of the form's field: without white space around it, in
/// lower case, with hyphens for spaces.
pub open spec fn name_meant(text: Seq<char>) -> Seq<char> {
    text::substituted(text::lowercase(text::trimmed(text)), ' ', "-"@)
}

/// A text with hyphens for spaces.
pub fn with_hyphens(lowered: &str) -> (r: String)
    ensures
        r@ == text::substituted(lowered@, ' ', "-"@),
{
    text::replace_char(lowered, ' ', "-")
}

/// The name that was meant, given the text of the form's field. A name that a project can have is
/// meant as it stands.
pub fn normalize_name(field: &str) -> (r: String)
    ensures
        r@ == name_meant(field@),
        is_ascii_chars(field@) ==> r@ == text::substituted(
            text::trimmed(field@).map_values(|c: char| text::ascii_lower(c)),
            ' ',
            "-"@,
        ),
        is_project_name(field@) ==> r@ == field@,
{
    let lowered = text::to_lowercase(text::trim(field));
    proof {
        if is_ascii_chars(field@) {
            text::lemma_trimmed_ascii(field@);
        }
        if is_project_name(field@) {
            lemma_name_is_lowered(field@);
            text::lemma_substituted_absent(field@, ' ', "-"@);
        }
    }
    with_hyphens(lowered.as_str())
}

/// Trimming a name that a project can have, and putting it in lower case, changes nothing.
proof fn lemma_name_is_lowered(name: Seq<char>)
    requires
        is_project_name(name),
    ensures
        is_ascii_chars(name),
        text::trimmed(name) == name,
        name.map_values(|c: char| text::ascii_lower(c)) == name,
        forall|i: int| 0 <= i < name.len() ==> name[i] != ' ',
{
    assert forall|i: int| 0 <= i < name.len() implies is_name_char(#[trigger] name[i])
        && text::ascii_lower(name[i]) == name[i] && name[i] != ' ' by {}
    assert(is_name_char(name[0]));
    assert(is_name_char(name.last()));
    assert(name.map_values(|c: char| text::ascii_lower(c)) =~= name);
}

// ---------------------------------------------------------------------------------------------
// The form
// ---------------------------------------------------------------------------------------------

/// A field of the form, as it was read.
#[derive(Debug)]
pub enum FormField {
    Binary(Result<Vec<u8>, String>),
    Name(Result<String, String>),
    /// A field of another name.
    Other,
}

/// What is known of the form so far. Of two fields of one name the later counts.
#[derive(Debug)]
pub struct DeployForm {
    pub binary: Option<Vec<u8>>,
    pub name: Option<String>,
}

/// A complete form: what to deploy, and as which project.
#[derive(Debug)]
pub struct Upload {
    pub binary: Vec<u8>,
    pub name: String,
}

impl DeployForm {
    /// A form of which nothing was read yet.
    pub fn new() -> (r: DeployForm)
        ensures
            r.binary is None,
            r.name is None,
    {
        DeployForm { binary: None, name: None }
    }

    /// Takes in one field. A field that could not be read, or that holds too much, refuses the
    /// form.
    pub fn take(&mut self, field: FormField) -> (r: Option<Refusal>)
        ensures
            match field {
                FormField::Binary(Ok(bytes)) => if bytes@.len() > MAX_BINARY_SIZE {
                    r == Some(Refusal::TooLarge) && *final(self) == *old(self)
                } else {
                    &&& r is None
                    &&& final(self).binary == Some(bytes)
                    &&& final(self).name == old(self).name
                },
                FormField::Binary(Err(e)) => r == Some(Refusal::BinaryUnreadable(e))
                    && *final(self) == *old(self),
                FormField::Name(Ok(name)) => {
                    &&& r is None
                    &&& final(self).binary == old(self).binary
                    &&& final(self).name matches Some(n) && n@ == name_meant(name@)
                },
                FormField::Name(Err(e)) => r == Some(Refusal::NameUnreadable(e)) && *final(self)
                    == *old(self),
                FormField::Other => r is None && *final(self) == *old(self),
            },
    {
        match field {
            FormField::Binary(Ok(bytes)) => {
                if bytes.len() > MAX_BINARY_SIZE {
                    Some(Refusal::TooLarge)
                } else {
                    self.binary = Some(bytes);
                    None
                }
            },
            FormField::Binary(Err(e)) => Some(Refusal::BinaryUnreadable(e)),
            FormField::Name(Ok(name)) => {
                self.name = Some(normalize_name(name.as_str()));
                None
            },
            FormField::Name(Err(e)) => Some(Refusal::NameUnreadable(e)),
            FormField::Other => None,
        }
    }

    /// The complete form. A missing file is told of before a missing name, and that before a name
    /// that no project can have.
    pub fn finish(self) -> (r: Result<Upload, Refusal>)
        ensures
            match self.binary {
                None => r == Err::<Upload, Refusal>(Refusal::MissingBinary),
                Some(binary) => match self.name {
                    Some(name) => if name@.len() == 0 {
                        r == Err::<Upload, Refusal>(Refusal::MissingName)
                    } else if !is_project_name(name@) {
                        r == Err::<Upload, Refusal>(Refusal::InvalidName)
                    } else {
                        r == Ok::<Upload, Refusal>(Upload { binary, name })
                    },
                    None => r == Err::<Upload, Refusal>(Refusal::MissingName),
                },
            },
    {
        match self.binary {
            None => Err(Refusal::MissingBinary),
            Some(binary) => match self.name {
                Some(name) => if name.as_str().unicode_len() == 0 {
                    Err(Refusal::MissingName)
                } else if !valid_name(name.as_str()) {
                    Err(Refusal::InvalidName)
                } else {
                    Ok(Upload { binary, name })
                },
                None => Err(Refusal::MissingName),
            },
        }
    }
}

impl Upload {
    /// True for an upload that a form can give.
    pub open spec fn wf(self) -> bool {
        is_project_name(self.name@)
    }

    /// True for a bundle.
    pub open spec fn spec_is_bundle(self) -> bool {
        bundle::has_gzip_magic(self.binary@)
    }

    /// True for a bundle.
    pub fn is_bundle(&self) -> (r: bool)
        ensures
            r == self.spec_is_bundle(),
    {
        bundle::is_gzip(self.binary.as_slice())
    }
}

// ---------------------------------------------------------------------------------------------
// Ports
// ---------------------------------------------------------------------------------------------

/// True for a port that no row has, rows being read by their low 16 bits.
pub open spec fn is_free(port: u16, used: Seq<i64>) -> bool {
    forall|i: int| 0 <= i < used.len() ==> #[verifier::truncate] (#[trigger] used[i] as u16) != port
}

/// The first free port of a range, both ends included.
pub open spec fn is_first_free(port: u16, start: u16, end: u16, used: Seq<i64>) -> bool {
    &&& start <= port <= end
    &&& is_free(port, used)
    &&& forall|p: u16| start <= p < port ==> !#[trigger] is_free(p, used)
}

/// True for a port that no row has.
fn is_unused(port: u16, used: &Vec<i64>) -> (r: bool)
    ensures
        r == is_free(port, used@),
{
    let mut i: usize = 0;
    while i < used.len()
        invariant
            i <= used@.len(),
            forall|j: int|
                0 <= j < i ==> #[verifier::truncate] (#[trigger] used@[j] as u16) != port,
        decreases used@.len() - i,
    {
        let low: u16 = #[verifier::truncate] (used[i] as u16);
        if low == port {
            assert(#[verifier::truncate] (used@[i as int] as u16) == port);
            return false;
        }
        i += 1;
    }
    true
}

/// The first free port of a range, both ends included; `None` where there is none. `used` holds
/// the ports of all projects.
pub fn allocate_port(start: u16, end: u16, used: &Vec<i64>) -> (r: Option<u16>)
    ensures
        match r {
            Some(port) => is_first_free(port, start, end, used@),
            None => forall|p: u16| start <= p <= end ==> !#[trigger] is_free(p, used@),
        },
{
    if start > end {
        return None;
    }
    let mut port: u16 = start;
    loop
        invariant
            start <= port <= end,
            forall|p: u16| start <= p < port ==> !#[trigger] is_free(p, used@),
        decreases end - port,
    {
        if is_unused(port, used) {
            return Some(port);
        }
        if port == end {
            return None;
        }
        port += 1;
    }
}

// ---------------------------------------------------------------------------------------------
// Laws
// ---------------------------------------------------------------------------------------------

/// The low 16 bits of a row's port, by which it is told whether a port is in use.
pub open spec fn low_port(row: i64) -> u16 {
    #[verifier::truncate] (row as u16)
}

/// True where no two rows have the same port.
pub open spec fn ports_distinct(rows: Seq<i64>) -> bool {
    forall|i: int, j: int|
        0 <= i < j < rows.len() ==> low_port(#[trigger] rows[i]) != low_port(#[trigger] rows[j])
}

/// No two projects ever have the same port: giving a new project the first free one keeps it so.
pub proof fn law_ports_stay_distinct(rows: Seq<i64>, port: u16, start: u16, end: u16)
    requires
        ports_distinct(rows),
        is_first_free(port, start, end, rows),
    ensures
        ports_distinct(rows.push(port as i64)),
{
    let after = rows.push(port as i64);
    assert forall|i: int, j: int| 0 <= i < j < after.len() implies low_port(#[trigger] after[i])
        != low_port(#[trigger] after[j]) by {
        if j == rows.len() {
            assert(#[verifier::truncate] (rows[i] as u16) != port);
        } else {
            assert(low_port(rows[i]) != low_port(rows[j]));
        }
    }
}

/// The name of a project is one component of a path, so that every project has a directory of its
/// own.
pub proof fn law_name_is_component(name: Seq<char>)
    requires
        is_project_name(name),
    ensures
        paths::is_component(name),
{
    assert forall|i: int| 0 <= i < name.len() implies name[i] != '/' && name[i] != '.' by {
        assert(is_name_char(name[i]));
    }
    assert(seq!['.'][0] == '.');
    assert(seq!['.', '.'][0] == '.');
}

} // verus!
