use vstd::prelude::*;

verus! {

#[derive(Default, Debug, PartialEq)]
pub struct Users {
    pub users: Vec<String>,
}


impl Clone for Users {
    fn clone(&self) -> (res: Self)
        ensures
            res.users@ == self.users@,
    {
        let users = self.users.clone();
        assert(users@ =~= self.users@);
        Users { users }
    }
}

} // verus!
