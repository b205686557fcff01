use vstd::prelude::*;
use vstd::utf8::encode_utf8;
use crate::accounts::{Account, AccountId, Session};
use crate::error::ApiError;
use crate::pagination::{extract_pagination, pagination_outcome, param_view};
use crate::password::{argon2_verdict, hash_password, is_salted_hash_of, verify_password};
use crate::products::{NewProducts, Products};
use crate::store::{has_account, has_username, owns, page, product_index, shows, ProductRow, Store};
use crate::token::{issue_token, issued_for};

verus! {

/// The acknowledgement of a registration.
pub const ACCOUNT_ADDED: &'static str = "Account added";

/// Registers an account: the password is replaced by its salted hash before
/// the account is stored.
pub fn register(store: &mut Store, account: Account) -> (r: Result<String, ApiError>)
    requires
        old(store).wf(),
        encode_utf8(account.password@).len() <= u32::MAX,
    ensures
        final(store).wf(),
        r is Ok <==> !has_username(old(store)@, account.username@) && old(store)@.accounts.len() < i32::MAX,
        r matches Ok(m) ==> m@ == ACCOUNT_ADDED@,
        r is Err ==> r == Err::<String, ApiError>(ApiError::DatabaseQueryError) && final(store)@ == old(store)@,
        r is Ok ==> {
            let n = old(store)@.accounts.len();
            let row = final(store)@.accounts[n as int];
            &&& final(store)@.accounts.len() == n + 1
            &&& final(store)@.accounts.take(n as int) == old(store)@.accounts
            &&& row.id == n + 1
            &&& row.username == account.username@
            &&& row.role == account.role@
            &&& is_salted_hash_of(row.password, encode_utf8(account.password@))
            &&& argon2_verdict(row.password, encode_utf8(account.password@)) == Some(true)
            &&& final(store)@.products == old(store)@.products
            &&& final(store)@.next_product_id == old(store)@.next_product_id
        },
{
    let hashed_password = hash_password(account.password.as_str().as_bytes());
    let account = Account {
        id: account.id,
        username: account.username,
        password: hashed_password,
        role: account.role,
    };
    let ghost pre = store@;
    match store.add_account(account) {
        Ok(_) => {
            assert(store@.accounts.take(pre.accounts.len() as int) =~= pre.accounts);
            Ok(String::from_str(ACCOUNT_ADDED))
        },
        Err(e) => Err(e),
    }
}

/// Logs in: looks the account up by username and checks the password
/// against its stored hash; on a match, issues a token for the account. An
/// unknown username, a wrong password and an unusable stored hash all give
/// the same `InvalidCredentials`.
pub fn login(store: &Store, key: &[u8], credentials: Account) -> (r: Result<String, ApiError>)
    requires
        store.wf(),
    ensures
        !has_username(store@, credentials.username@) ==> r == Err::<String, ApiError>(ApiError::InvalidCredentials),
        forall|i: int|
            0 <= i < store@.accounts.len() && #[trigger] store@.accounts[i].username == credentials.username@
                ==> (argon2_verdict(store@.accounts[i].password, encode_utf8(credentials.password@)) == Some(true)
                <==> r != Err::<String, ApiError>(ApiError::InvalidCredentials)),
        r is Err ==> r == Err::<String, ApiError>(ApiError::InvalidCredentials) || r == Err::<String, ApiError>(
            ApiError::CannotIssueToken,
        ),
        r matches Ok(t) ==> exists|i: int|
            0 <= i < store@.accounts.len() && #[trigger] store@.accounts[i].username == credentials.username@
                && exists|now: i64| issued_for(key@, t@, AccountId(store@.accounts[i].id), now),
{
    let account = match store.get_account(credentials.username) {
        Ok(a) => a,
        Err(_) => { return Err(ApiError::InvalidCredentials); },
    };
    let ghost k = choose|k: int|
        0 <= k < store@.accounts.len() && #[trigger] store@.accounts[k].username == credentials.username@
            && account.id == Some(AccountId(store@.accounts[k].id))
            && account.password@ == store@.accounts[k].password;
    assert(forall|i: int|
        0 <= i < store@.accounts.len() && #[trigger] store@.accounts[i].username == credentials.username@ ==> i == k);
    let id = match account.id {
        Some(id) => id,
        None => { return Err(ApiError::InvalidCredentials); },
    };
    match verify_password(account.password.as_str(), credentials.password.as_str().as_bytes()) {
        Ok(true) => match issue_token(key, id) {
            Ok(t) => Ok(t),
            Err(_) => Err(ApiError::CannotIssueToken),
        },
        _ => Err(ApiError::InvalidCredentials),
    }
}

/// Lists one page of products, as the raw `limit` and `offset` query values
/// ask; malformed values are rejected before the store is read.
pub fn get_products(store: &Store, limit: Option<&str>, offset: Option<&str>) -> (r: Result<
    Vec<Products>,
    ApiError,
>)
    requires
        store.wf(),
    ensures
        match pagination_outcome(param_view(limit), param_view(offset)) {
            Err(e) => r == Err::<Vec<Products>, ApiError>(e),
            Ok(pg) => r matches Ok(ps) && {
                let rows = page(store@.products, pg.limit, pg.offset as int);
                &&& ps@.len() == rows.len()
                &&& forall|i: int| 0 <= i < rows.len() ==> shows(#[trigger] ps@[i], rows[i])
            },
        },
{
    let pagination = extract_pagination(limit, offset)?;
    store.get_product(pagination.limit, pagination.offset)
}

/// Creates a product owned by the session's account.
pub fn add_product(store: &mut Store, session: Session, new_products: NewProducts) -> (r: Result<
    Products,
    ApiError,
>)
    requires
        old(store).wf(),
    ensures
        final(store).wf(),
        r is Ok <==> has_account(old(store)@, session.account_id.0) && old(store)@.next_product_id < i32::MAX,
        r is Err ==> r == Err::<Products, ApiError>(ApiError::DatabaseQueryError) && final(store)@ == old(store)@,
        r matches Ok(p) ==> {
            let row = ProductRow {
                id: old(store)@.next_product_id,
                name: new_products.name@,
                price: new_products.price,
                seller_id: session.account_id.0,
            };
            &&& shows(p, row)
            &&& final(store)@.products == old(store)@.products.push(row)
            &&& final(store)@.accounts == old(store)@.accounts
            &&& final(store)@.next_product_id == old(store)@.next_product_id + 1
        },
{
    let account_id = session.account_id;
    let product = NewProducts { name: new_products.name, price: new_products.price };
    store.add_product(product, account_id)
}

/// Updates a product's name and price on behalf of the session's account:
/// a caller that does not own the product is refused before the store is
/// touched, and the store's own update filters by owner again.
pub fn update_product(store: &mut Store, id: i32, session: Session, products: Products) -> (r: Result<
    Products,
    ApiError,
>)
    requires
        old(store).wf(),
    ensures
        final(store).wf(),
        !owns(old(store)@, id, session.account_id.0) ==> r == Err::<Products, ApiError>(ApiError::Unauthorized)
            && final(store)@ == old(store)@,
        owns(old(store)@, id, session.account_id.0) ==> (r matches Ok(p) && {
            let row = ProductRow {
                id,
                name: products.name@,
                price: products.price,
                seller_id: session.account_id.0,
            };
            &&& shows(p, row)
            &&& final(store)@.products == old(store)@.products.update(product_index(old(store)@, id), row)
            &&& final(store)@.accounts == old(store)@.accounts
            &&& final(store)@.next_product_id == old(store)@.next_product_id
        }),
{
    let account_id = session.account_id;
    match store.is_product_owner(id, &account_id) {
        Ok(true) => store.update_product(products, id, account_id.0),
        Ok(false) => Err(ApiError::Unauthorized),
        Err(e) => Err(e),
    }
}

/// Deletes a product on behalf of the session's account: a caller that does
/// not own the product is refused and nothing is deleted.
pub fn delete_product(store: &mut Store, id: i32, session: Session) -> (r: Result<bool, ApiError>)
    requires
        old(store).wf(),
    ensures
        final(store).wf(),
        !owns(old(store)@, id, session.account_id.0) ==> r == Err::<bool, ApiError>(ApiError::Unauthorized)
            && final(store)@ == old(store)@,
        owns(old(store)@, id, session.account_id.0) ==> {
            &&& r == Ok::<bool, ApiError>(true)
            &&& final(store)@.products == old(store)@.products.remove(product_index(old(store)@, id))
            &&& final(store)@.accounts == old(store)@.accounts
            &&& final(store)@.next_product_id == old(store)@.next_product_id
        },
{
    let account_id = session.account_id;
    match store.is_product_owner(id, &account_id) {
        Ok(true) => store.delete_product(id, account_id),
        Ok(false) => Err(ApiError::Unauthorized),
        Err(e) => Err(e),
    }
}

} // verus!
