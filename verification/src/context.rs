use vstd::prelude::*;

verus! {

/// The identity attached to an authenticated request: the id of the user the
/// presented access token was issued for.
#[derive(Clone, Debug)]
pub struct Ctx {
    user_id: String,
}

impl Ctx {
    /// The user id this context stands for.
    pub closed spec fn view(&self) -> Seq<char> {
        self.user_id@
    }

    pub fn new(user_id: &str) -> (ctx: Self)
        ensures
            ctx@ == user_id@,
    {
        Self { user_id: user_id.to_owned() }
    }

    /// Getter for user_id
    pub fn user_id(&self) -> (r: String)
        ensures
            r@ == self@,
    {
        self.user_id.clone()
    }
}

} // verus!
