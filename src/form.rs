use vstd::prelude::*;

verus! {

/// The fields of the registration form.
pub struct RegisterFormData {
    pub username: String,
    pub email: String,
    pub password: String,
}

/// The fields of the sign-in form.
pub struct LoginFormData {
    pub email: String,
    pub password: String,
}

} // verus!
