use vstd::prelude::*;

verus! {

/// One key/value pair of a response.
#[derive(Debug, Clone, PartialEq, Eq)]
pub struct Attribute {
    pub key: String,
    pub value: String,
}

/// What an execute operation hands back to the host: operations to forward,
/// in order, and the attributes that describe what was done.
#[derive(Debug, Clone, PartialEq, Eq)]
pub struct Response<M> {
    pub messages: Vec<M>,
    pub attributes: Vec<Attribute>,
}

impl Attribute {
    pub open spec fn view_pair(&self) -> (Seq<char>, Seq<char>) {
        (self.key@, self.value@)
    }

    pub fn new(key: &str, value: &str) -> (a: Attribute)
        ensures
            a.key@ == key@,
            a.value@ == value@,
    {
        Attribute { key: String::from_str(key), value: String::from_str(value) }
    }
}

impl<M> Response<M> {
    /// The attributes as pairs of character sequences.
    pub open spec fn attrs(&self) -> Seq<(Seq<char>, Seq<char>)> {
        self.attributes@.map_values(|a: Attribute| a.view_pair())
    }

    /// A response that forwards nothing and carries the single attribute
    /// `key = value`.
    pub fn with_attribute(key: &str, value: &str) -> (r: Response<M>)
        ensures
            r.messages@.len() == 0,
            r.attrs() == seq![(key@, value@)],
    {
        let a = Attribute::new(key, value);
        let attributes = vec![a];
        let r = Response { messages: Vec::new(), attributes };
        assert(r.attrs() =~= seq![(key@, value@)]);
        r
    }
}

} // verus!
