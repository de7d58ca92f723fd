use vstd::prelude::*;

verus! {

/// The values that a build fixes: the tag that every container starts with,
/// the key of the tag that authenticates a key server's reply, and the name
/// by which the client presents itself. How they are kept out of sight in a
/// binary is the caller's choice.
pub struct Secrets {
    pub magic: Vec<u8>,
    pub hmac_key: Vec<u8>,
    pub user_agent: Vec<u8>,
}

impl Secrets {
    /// Usable secrets have a magic tag of at least one byte: an empty tag
    /// marks nothing and obscures nothing.
    pub open spec fn wf(&self) -> bool {
        self.magic@.len() > 0
    }

    /// The secrets of a build, or nothing where the magic tag is empty.
    pub fn new(magic: Vec<u8>, hmac_key: Vec<u8>, user_agent: Vec<u8>) -> (s: Option<Secrets>)
        ensures
            s.is_some() == (magic@.len() > 0),
            s matches Some(v) ==> v.wf() && v.magic@ == magic@ && v.hmac_key@ == hmac_key@
                && v.user_agent@ == user_agent@,
    {
        if magic.len() == 0 {
            None
        } else {
            Some(Secrets { magic, hmac_key, user_agent })
        }
    }
}

} // verus!
