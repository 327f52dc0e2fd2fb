use vstd::prelude::*;

verus! {

/// A way a user can be paid back, such as a bank account, with its details.
#[derive(Debug)]
pub struct PayMethod {
    pub user_id: u32,
    pub method: String,
    pub method_info: String,
}

impl PayMethod {
    /// The method as stored for a user: the user and method name come from
    /// the path, the details from the request.
    pub open spec fn for_path(self, user_id: u32, method: String) -> PayMethod {
        PayMethod { user_id, method, method_info: self.method_info }
    }

    /// The method stored when a user adds one: the user from the path, the
    /// method and its details from the request.
    pub open spec fn added_for(self, user_id: u32) -> PayMethod {
        PayMethod { user_id, ..self }
    }
}

/// The row that adding a method stores for the user of the path, and the
/// request itself, which is what the request is answered with.
pub fn create(user_id: u32, method: PayMethod) -> (r: (PayMethod, PayMethod))
    ensures
        r.0 == method.added_for(user_id),
        r.0.user_id == user_id,
        r.0.method == method.method,
        r.0.method_info == method.method_info,
        r.1 == method,
{
    let row = PayMethod { user_id, method: method.method.clone(), method_info: method.method_info.clone() };
    (row, method)
}

/// The method that an update stores and answers with: the user and method
/// name from the path, the details from the request.
pub fn update(user_id: u32, method_name: String, method: PayMethod) -> (m: PayMethod)
    ensures
        m == method.for_path(user_id, method_name),
        m.user_id == user_id,
        m.method == method_name,
        m.method_info == method.method_info,
{
    PayMethod { user_id, method: method_name, method_info: method.method_info }
}

/// The path decides which method of which user is updated, whatever the
/// request names; only the details come from the request.
pub proof fn lemma_update_uses_path(method: PayMethod, user_id: u32, method_name: String)
    ensures
        method.for_path(user_id, method_name).user_id == user_id,
        method.for_path(user_id, method_name).method == method_name,
        method.for_path(user_id, method_name).method_info == method.method_info,
{
}

/// The row stored when a method is added belongs to the user of the path,
/// whatever user the request names; its method and details are the
/// request's.
pub proof fn lemma_added_method_belongs_to_path_user(method: PayMethod, user_id: u32)
    ensures
        method.added_for(user_id).user_id == user_id,
        method.added_for(user_id).method == method.method,
        method.added_for(user_id).method_info == method.method_info,
{
}

} // verus!
