use vstd::prelude::*;
use crate::accounts::{Account, AccountId};
use crate::error::ApiError;
use crate::products::{NewProducts, ProductId, Products};

verus! {

/// A row of the accounts table.
pub struct AccountRow {
    pub id: i32,
    pub username: Seq<char>,
    pub password: Seq<char>,
    pub role: Seq<char>,
}

/// A row of the products table; `seller_id` is the owning account.
pub struct ProductRow {
    pub id: i32,
    pub name: Seq<char>,
    pub price: i32,
    pub seller_id: i32,
}

/// The contents of a store: both tables, in insertion order, and the id the
/// next product will get.
pub struct StoreView {
    pub accounts: Seq<AccountRow>,
    pub products: Seq<ProductRow>,
    pub next_product_id: i32,
}

/// Whether a username is taken.
pub open spec fn has_username(v: StoreView, username: Seq<char>) -> bool {
    exists|i: int| 0 <= i < v.accounts.len() && #[trigger] v.accounts[i].username == username
}

/// Whether an account with this id exists.
pub open spec fn has_account(v: StoreView, id: i32) -> bool {
    1 <= id <= v.accounts.len()
}

/// The ownership predicate: a product with this id exists and was created
/// by this account.
pub open spec fn owns(v: StoreView, product_id: i32, account_id: i32) -> bool {
    exists|i: int|
        0 <= i < v.products.len() && #[trigger] v.products[i].id == product_id
            && v.products[i].seller_id == account_id
}

/// The position of the product with this id.
pub open spec fn product_index(v: StoreView, product_id: i32) -> int {
    choose|i: int| 0 <= i < v.products.len() && #[trigger] v.products[i].id == product_id
}

/// Well-formedness: account ids are their positions plus one, usernames are
/// unique, product ids increase strictly along the table and stay below the
/// next id to assign, and every product's seller is an account.
pub open spec fn view_wf(v: StoreView) -> bool {
    &&& v.accounts.len() <= i32::MAX
    &&& forall|i: int| 0 <= i < v.accounts.len() ==> #[trigger] v.accounts[i].id == i + 1
    &&& forall|i: int, j: int|
        0 <= i < j < v.accounts.len() ==> #[trigger] v.accounts[i].username
            != #[trigger] v.accounts[j].username
    &&& 1 <= v.next_product_id
    &&& forall|i: int, j: int|
        0 <= i < j < v.products.len() ==> #[trigger] v.products[i].id < #[trigger] v.products[j].id
    &&& forall|i: int|
        0 <= i < v.products.len() ==> 1 <= #[trigger] v.products[i].id < v.next_product_id
    &&& forall|i: int|
        0 <= i < v.products.len() ==> has_account(v, #[trigger] v.products[i].seller_id)
}

/// What a listed product shows of a row.
pub open spec fn shows(p: Products, row: ProductRow) -> bool {
    p.id.0 == row.id && p.name@ == row.name && p.price == row.price
}

/// The rows of a page: from `offset` on, at most `limit` of them.
pub open spec fn page(rows: Seq<ProductRow>, limit: Option<i32>, offset: int) -> Seq<ProductRow> {
    let start = if offset < rows.len() { offset } else { rows.len() as int };
    let end = match limit {
        Some(l) => if start + l < rows.len() { start + l } else { rows.len() as int },
        None => rows.len() as int,
    };
    rows.subrange(start, end)
}

struct StoredAccount {
    id: i32,
    username: String,
    password: String,
    role: String,
}

struct StoredProduct {
    id: i32,
    name: String,
    price: i32,
    seller_id: i32,
}

impl StoredAccount {
    spec fn row(self) -> AccountRow {
        AccountRow { id: self.id, username: self.username@, password: self.password@, role: self.role@ }
    }
}

impl StoredProduct {
    spec fn row(self) -> ProductRow {
        ProductRow { id: self.id, name: self.name@, price: self.price, seller_id: self.seller_id }
    }
}

/// The record store: accounts and products, with ownership-gated mutation.
pub struct Store {
    accounts: Vec<StoredAccount>,
    products: Vec<StoredProduct>,
    next_product_id: i32,
}

impl View for Store {
    type V = StoreView;

    closed spec fn view(&self) -> StoreView {
        StoreView {
            accounts: self.accounts@.map_values(|a: StoredAccount| a.row()),
            products: self.products@.map_values(|p: StoredProduct| p.row()),
            next_product_id: self.next_product_id,
        }
    }
}

impl Store {
    pub open spec fn wf(&self) -> bool {
        view_wf(self@)
    }

    /// An empty store.
    pub fn new() -> (r: Store)
        ensures
            r.wf(),
            r@.accounts.len() == 0,
            r@.products.len() == 0,
            r@.next_product_id == 1,
    {
        let r = Store { accounts: Vec::new(), products: Vec::new(), next_product_id: 1 };
        assert(r@.accounts =~= Seq::empty());
        assert(r@.products =~= Seq::empty());
        r
    }

    fn find_username(&self, username: &String) -> (r: Option<usize>)
        ensures
            match r {
                Some(i) => i < self@.accounts.len() && self@.accounts[i as int].username == username@,
                None => !has_username(self@, username@),
            },
    {
        let mut i: usize = 0;
        while i < self.accounts.len()
            invariant
                i <= self.accounts@.len(),
                forall|j: int| 0 <= j < i ==> #[trigger] self@.accounts[j].username != username@,
            decreases self.accounts@.len() - i,
        {
            if self.accounts[i].username == *username {
                return Some(i);
            }
            i = i + 1;
        }
        None
    }

    fn find_product(&self, id: i32) -> (r: Option<usize>)
        requires
            self.wf(),
        ensures
            match r {
                Some(i) => i < self@.products.len() && self@.products[i as int].id == id
                    && product_index(self@, id) == i,
                None => forall|j: int| 0 <= j < self@.products.len() ==> #[trigger] self@.products[j].id != id,
            },
    {
        let mut i: usize = 0;
        while i < self.products.len()
            invariant
                self.wf(),
                i <= self.products@.len(),
                forall|j: int| 0 <= j < i ==> #[trigger] self@.products[j].id != id,
            decreases self.products@.len() - i,
        {
            if self.products[i].id == id {
                assert(self@.products[i as int].id == id);
                let ghost k = product_index(self@, id);
                assert(0 <= k < self@.products.len() && self@.products[k].id == id);
                assert(k == i) by {
                    if k < i {
                        assert(self@.products[k].id < self@.products[i as int].id);
                    } else if k > i {
                        assert(self@.products[i as int].id < self@.products[k].id);
                    }
                }
                return Some(i);
            }
            i = i + 1;
        }
        None
    }

    /// Inserts an account (its password already hashed) under the next id. A
    /// taken username violates the unique constraint and fails, as does an
    /// exhausted id space; the store is then unchanged.
    pub fn add_account(&mut self, account: Account) -> (r: Result<bool, ApiError>)
        requires
            old(self).wf(),
        ensures
            final(self).wf(),
            has_username(old(self)@, account.username@) || old(self)@.accounts.len() >= i32::MAX
                ==> r == Err::<bool, ApiError>(ApiError::DatabaseQueryError) && final(self)@ == old(self)@,
            !(has_username(old(self)@, account.username@) || old(self)@.accounts.len() >= i32::MAX) ==> {
                &&& r == Ok::<bool, ApiError>(true)
                &&& final(self)@.accounts == old(self)@.accounts.push(
                    AccountRow {
                        id: (old(self)@.accounts.len() + 1) as i32,
                        username: account.username@,
                        password: account.password@,
                        role: account.role@,
                    },
                )
                &&& final(self)@.products == old(self)@.products
                &&& final(self)@.next_product_id == old(self)@.next_product_id
            },
    {
        if self.find_username(&account.username).is_some() {
            return Err(ApiError::DatabaseQueryError);
        }
        let n = self.accounts.len();
        if n >= i32::MAX as usize {
            return Err(ApiError::DatabaseQueryError);
        }
        let ghost pre = self@;
        let stored = StoredAccount {
            id: (n + 1) as i32,
            username: account.username,
            password: account.password,
            role: account.role,
        };
        self.accounts.push(stored);
        assert(self@.accounts =~= pre.accounts.push(stored.row()));
        assert(self@.products =~= pre.products);
        Ok(true)
    }

    /// The account with this username; exactly one row must match, otherwise
    /// the lookup fails.
    pub fn get_account(&self, username: String) -> (r: Result<Account, ApiError>)
        requires
            self.wf(),
        ensures
            r is Ok <==> has_username(self@, username@),
            r is Err ==> r == Err::<Account, ApiError>(ApiError::DatabaseQueryError),
            r matches Ok(a) ==> exists|i: int|
                0 <= i < self@.accounts.len() && #[trigger] self@.accounts[i].username == username@
                    && a.id == Some(AccountId(self@.accounts[i].id))
                    && a.username@ == username@
                    && a.password@ == self@.accounts[i].password
                    && a.role@ == self@.accounts[i].role,
    {
        match self.find_username(&username) {
            None => Err(ApiError::DatabaseQueryError),
            Some(i) => {
                let stored = &self.accounts[i];
                assert(self@.accounts[i as int] == stored.row());
                Ok(Account {
                    id: Some(AccountId(stored.id)),
                    username: stored.username.clone(),
                    password: stored.password.clone(),
                    role: stored.role.clone(),
                })
            },
        }
    }

    /// One page of products, in id order: at most `limit` of them (all where
    /// `None`) after skipping `offset`. A negative limit or offset is refused.
    pub fn get_product(&self, limit: Option<i32>, offset: i32) -> (r: Result<Vec<Products>, ApiError>)
        requires
            self.wf(),
        ensures
            offset < 0 || (limit matches Some(l) && l < 0) ==> r == Err::<Vec<Products>, ApiError>(
                ApiError::DatabaseQueryError,
            ),
            !(offset < 0 || (limit matches Some(l) && l < 0)) ==> (r matches Ok(ps) && {
                let rows = page(self@.products, limit, offset as int);
                &&& ps@.len() == rows.len()
                &&& forall|i: int| 0 <= i < rows.len() ==> shows(#[trigger] ps@[i], rows[i])
            }),
    {
        if offset < 0 {
            return Err(ApiError::DatabaseQueryError);
        }
        let n = self.products.len();
        let start: usize = if (offset as usize) < n { offset as usize } else { n };
        let end: usize = match limit {
            Some(l) => {
                if l < 0 {
                    return Err(ApiError::DatabaseQueryError);
                }
                if (l as usize) < n - start { start + l as usize } else { n }
            },
            None => n,
        };
        let ghost rows = page(self@.products, limit, offset as int);
        assert(rows =~= self@.products.subrange(start as int, end as int));
        let mut out: Vec<Products> = Vec::new();
        let mut i: usize = start;
        while i < end
            invariant
                start <= i <= end <= n,
                n == self.products@.len(),
                rows == self@.products.subrange(start as int, end as int),
                out@.len() == i - start,
                forall|j: int| 0 <= j < i - start ==> shows(#[trigger] out@[j], rows[j]),
            decreases end - i,
        {
            let stored = &self.products[i];
            assert(self@.products[i as int] == stored.row());
            out.push(Products { id: ProductId(stored.id), name: stored.name.clone(), price: stored.price });
            i = i + 1;
        }
        Ok(out)
    }

    /// Creates a product owned by `account_id` under the next product id. The
    /// seller must be an existing account (foreign key), and the id space must
    /// not be exhausted; otherwise the store is unchanged and the call fails.
    pub fn add_product(&mut self, new_productions: NewProducts, account_id: AccountId) -> (r: Result<
        Products,
        ApiError,
    >)
        requires
            old(self).wf(),
        ensures
            final(self).wf(),
            !has_account(old(self)@, account_id.0) || old(self)@.next_product_id == i32::MAX ==> r
                is Err && final(self)@ == old(self)@,
            r is Err ==> r == Err::<Products, ApiError>(ApiError::DatabaseQueryError),
            has_account(old(self)@, account_id.0) && old(self)@.next_product_id < i32::MAX ==> (r matches Ok(p)
                && {
                let row = ProductRow {
                    id: old(self)@.next_product_id,
                    name: new_productions.name@,
                    price: new_productions.price,
                    seller_id: account_id.0,
                };
                &&& shows(p, row)
                &&& final(self)@.products == old(self)@.products.push(row)
                &&& final(self)@.accounts == old(self)@.accounts
                &&& final(self)@.next_product_id == old(self)@.next_product_id + 1
            }),
    {
        if account_id.0 < 1 || account_id.0 as usize > self.accounts.len() {
            return Err(ApiError::DatabaseQueryError);
        }
        if self.next_product_id == i32::MAX {
            return Err(ApiError::DatabaseQueryError);
        }
        let ghost pre = self@;
        let id = self.next_product_id;
        let name = new_productions.name.clone();
        let stored = StoredProduct {
            id,
            name: new_productions.name,
            price: new_productions.price,
            seller_id: account_id.0,
        };
        self.products.push(stored);
        self.next_product_id = id + 1;
        assert(self@.products =~= pre.products.push(stored.row()));
        assert(self@.accounts =~= pre.accounts);
        Ok(Products { id: ProductId(id), name, price: new_productions.price })
    }

    /// Whether the product with this id exists and belongs to the account;
    /// a missing product and another owner both give `false`.
    pub fn is_product_owner(&self, product_id: i32, account_id: &AccountId) -> (r: Result<bool, ApiError>)
        requires
            self.wf(),
        ensures
            r == Ok::<bool, ApiError>(owns(self@, product_id, account_id.0)),
    {
        match self.find_product(product_id) {
            None => Ok(false),
            Some(i) => {
                let b = self.products[i].seller_id == account_id.0;
                assert(self@.products[i as int] == self.products@[i as int].row());
                proof {
                    if !b {
                        assert forall|j: int|
                            0 <= j < self@.products.len() && #[trigger] self@.products[j].id == product_id
                                implies self@.products[j].seller_id != account_id.0 by {
                            if j < i {
                                assert(self@.products[j].id < self@.products[i as int].id);
                            } else if j > i {
                                assert(self@.products[i as int].id < self@.products[j].id);
                            }
                        }
                    }
                }
                Ok(b)
            },
        }
    }

    /// Sets the name and price of the product with this id, filtering by the
    /// owner as well: where no row matches both, nothing changes and the call
    /// fails. The id and the seller never change.
    pub fn update_product(&mut self, product: Products, id: i32, seller_id: i32) -> (r: Result<
        Products,
        ApiError,
    >)
        requires
            old(self).wf(),
        ensures
            final(self).wf(),
            !owns(old(self)@, id, seller_id) ==> r == Err::<Products, ApiError>(ApiError::DatabaseQueryError)
                && final(self)@ == old(self)@,
            owns(old(self)@, id, seller_id) ==> (r matches Ok(p) && {
                let row = ProductRow { id, name: product.name@, price: product.price, seller_id };
                &&& shows(p, row)
                &&& final(self)@.products == old(self)@.products.update(product_index(old(self)@, id), row)
                &&& final(self)@.accounts == old(self)@.accounts
                &&& final(self)@.next_product_id == old(self)@.next_product_id
            }),
    {
        match self.is_product_owner(id, &AccountId(seller_id)) {
            Ok(true) => {},
            _ => { return Err(ApiError::DatabaseQueryError); },
        }
        let i = match self.find_product(id) {
            Some(i) => i,
            None => { return Err(ApiError::DatabaseQueryError); },
        };
        let ghost pre = self@;
        assert(pre.products[i as int].seller_id == seller_id) by {
            let k = choose|k: int|
                0 <= k < pre.products.len() && #[trigger] pre.products[k].id == id
                    && pre.products[k].seller_id == seller_id;
            if k < i {
                assert(pre.products[k].id < pre.products[i as int].id);
            } else if k > i {
                assert(pre.products[i as int].id < pre.products[k].id);
            }
        }
        let name = product.name.clone();
        let stored = StoredProduct { id, name: product.name, price: product.price, seller_id };
        self.products[i] = stored;
        assert(self@.products =~= pre.products.update(i as int, stored.row()));
        assert(self@.accounts =~= pre.accounts);
        Ok(Products { id: ProductId(id), name, price: product.price })
    }

    /// Deletes the product with this id where it belongs to `seller_id`; a
    /// row that does not match both is left alone. Affecting no row is still
    /// a success.
    pub fn delete_product(&mut self, id: i32, seller_id: AccountId) -> (r: Result<bool, ApiError>)
        requires
            old(self).wf(),
        ensures
            final(self).wf(),
            r == Ok::<bool, ApiError>(true),
            !owns(old(self)@, id, seller_id.0) ==> final(self)@ == old(self)@,
            owns(old(self)@, id, seller_id.0) ==> {
                &&& final(self)@.products == old(self)@.products.remove(product_index(old(self)@, id))
                &&& final(self)@.accounts == old(self)@.accounts
                &&& final(self)@.next_product_id == old(self)@.next_product_id
            },
    {
        match self.is_product_owner(id, &seller_id) {
            Ok(true) => {},
            _ => { return Ok(true); },
        }
        let i = match self.find_product(id) {
            Some(i) => i,
            None => { return Ok(true); },
        };
        let ghost pre = self@;
        self.products.remove(i);
        assert(self@.products =~= pre.products.remove(i as int));
        assert(self@.accounts =~= pre.accounts);
        assert forall|a: int, b: int| 0 <= a < b < self@.products.len() implies
            #[trigger] self@.products[a].id < #[trigger] self@.products[b].id by {
            let a0 = if a < i { a } else { a + 1 };
            let b0 = if b < i { b } else { b + 1 };
            assert(pre.products[a0].id < pre.products[b0].id);
        }
        assert forall|a: int| 0 <= a < self@.products.len() implies
            1 <= #[trigger] self@.products[a].id < self@.next_product_id
                && has_account(self@, self@.products[a].seller_id) by {
            let a0 = if a < i { a } else { a + 1 };
            assert(pre.products[a0] == self@.products[a]);
        }
        Ok(true)
    }
}

} // verus!

verus! {

/// Ownership is exclusive: in a well-formed store, a product that one account
/// owns is owned by no other account.
pub proof fn lemma_ownership_exclusive(v: StoreView, product_id: i32, owner: i32, other: i32)
    requires
        view_wf(v),
        owns(v, product_id, owner),
        owner != other,
    ensures
        !owns(v, product_id, other),
{
    let i = choose|i: int|
        0 <= i < v.products.len() && #[trigger] v.products[i].id == product_id
            && v.products[i].seller_id == owner;
    assert forall|j: int| 0 <= j < v.products.len() && #[trigger] v.products[j].id == product_id implies v.products[j].seller_id
        != other by {
        if j < i {
            assert(v.products[j].id < v.products[i].id);
        } else if j > i {
            assert(v.products[i].id < v.products[j].id);
        }
    }
}

} // verus!
