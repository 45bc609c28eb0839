//! The request templates shipped with the tool, looked up by file name.
use vstd::prelude::*;
use vstd::string::*;
use vstd::utf8::*;

verus! {

/// The embedded template files: pairs of a file name and its raw bytes.
pub struct Templates {
    entries: Vec<(String, Vec<u8>)>,
}

impl View for Templates {
    type V = Seq<(Seq<char>, Seq<u8>)>;

    closed spec fn view(&self) -> Seq<(Seq<char>, Seq<u8>)> {
        Seq::new(self.entries@.len(), |i: int| (self.entries@[i].0@, self.entries@[i].1@))
    }
}

/// The bytes of the first file of `files` called `name`, if there is one.
pub open spec fn lookup(files: Seq<(Seq<char>, Seq<u8>)>, name: Seq<char>) -> Option<Seq<u8>>
    decreases files.len(),
{
    if files.len() == 0 {
        None
    } else if files[0].0 == name {
        Some(files[0].1)
    } else {
        lookup(files.drop_first(), name)
    }
}

/// Whether `name` is among `files` and its first such file is valid UTF-8.
pub open spec fn has_text(files: Seq<(Seq<char>, Seq<u8>)>, name: Seq<char>) -> bool {
    lookup(files, name) matches Some(bytes) && valid_utf8(bytes)
}

/// The text of the file `name` of `files`; meaningful where `has_text` holds.
pub open spec fn text_of(files: Seq<(Seq<char>, Seq<u8>)>, name: Seq<char>) -> Seq<char> {
    decode_utf8(lookup(files, name).unwrap())
}

impl Templates {
    /// An empty set of templates.
    pub fn new() -> (r: Templates)
        ensures
            r@ == Seq::<(Seq<char>, Seq<u8>)>::empty(),
    {
        let r = Templates { entries: Vec::new() };
        assert(r@ =~= Seq::<(Seq<char>, Seq<u8>)>::empty());
        r
    }

    /// Adds the file `name` with contents `data` after the present ones.
    pub fn add(&mut self, name: String, data: Vec<u8>)
        ensures
            final(self)@ == old(self)@.push((name@, data@)),
    {
        self.entries.push((name, data));
        assert(self@ =~= old(self)@.push((name@, data@)));
    }

    /// The position of the first file called `name`.
    fn position(&self, name: &str) -> (r: Option<usize>)
        ensures
            match r {
                Some(i) => i < self@.len() && self@[i as int].0 == name@ && lookup(self@, name@)
                    == Some(self@[i as int].1),
                None => lookup(self@, name@) is None,
            },
    {
        let wanted = String::from_str(name);
        let mut i: usize = 0;
        assert(self@.skip(0) =~= self@);
        while i < self.entries.len()
            invariant
                i <= self.entries@.len(),
                wanted@ == name@,
                lookup(self@, name@) == lookup(self@.skip(i as int), name@),
            decreases self.entries@.len() - i,
        {
            let ghost rest = self@.skip(i as int);
            assert(rest[0] == self@[i as int]);
            if self.entries[i].0 == wanted {
                return Some(i);
            }
            assert(rest.drop_first() =~= self@.skip(i + 1));
            i = i + 1;
        }
        None
    }
}

/// The string that the bytes `bytes` spell in UTF-8, if they are valid UTF-8
/// (`std::str::from_utf8`).
#[verifier::external_body]
fn utf8_text(bytes: &[u8]) -> (r: Option<&str>)
    ensures
        r is Some <==> valid_utf8(bytes@),
        r matches Some(s) ==> s@ == decode_utf8(bytes@),
{
    std::str::from_utf8(bytes).ok()
}

/// The text of the template file `file_path`. The file must be present and
/// hold valid UTF-8.
pub fn get_json(templates: &Templates, file_path: &str) -> (r: String)
    requires
        has_text(templates@, file_path@),
    ensures
        r@ == text_of(templates@, file_path@),
{
    let i = templates.position(file_path).unwrap();
    let data = utf8_text(templates.entries[i].1.as_slice()).unwrap();
    data.to_owned()
}

/// The text of the template file `file_path`, or `None` where the file is
/// missing or does not hold valid UTF-8.
pub fn find_json(templates: &Templates, file_path: &str) -> (r: Option<String>)
    ensures
        r is Some <==> has_text(templates@, file_path@),
        r matches Some(s) ==> s@ == text_of(templates@, file_path@),
{
    match templates.position(file_path) {
        Some(i) => match utf8_text(templates.entries[i].1.as_slice()) {
            Some(s) => Some(s.to_owned()),
            None => None,
        },
        None => None,
    }
}

/// Adding a file leaves every name already present as it was, and makes a
/// new name give the added contents.
pub proof fn lemma_lookup_after_add(
    files: Seq<(Seq<char>, Seq<u8>)>,
    name: Seq<char>,
    data: Seq<u8>,
    wanted: Seq<char>,
)
    ensures
        lookup(files.push((name, data)), wanted) == match lookup(files, wanted) {
            Some(d) => Some(d),
            None => if wanted == name {
                Some(data)
            } else {
                None
            },
        },
    decreases files.len(),
{
    let pushed = files.push((name, data));
    if files.len() > 0 {
        assert(pushed[0] == files[0]);
        assert(pushed.drop_first() =~= files.drop_first().push((name, data)));
        lemma_lookup_after_add(files.drop_first(), name, data, wanted);
    } else {
        assert(pushed[0] == (name, data));
        assert(pushed.drop_first() =~= Seq::<(Seq<char>, Seq<u8>)>::empty());
        assert(lookup(pushed.drop_first(), wanted) is None);
    }
}

} // verus!
