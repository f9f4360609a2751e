//! The keystore: at most one keyfile under each wallet name, and the
//! operations of a wallet by name.

use crate::error::{optional_outcome, outcome, KeystoreError};
use crate::kdf::password_fits;
use crate::keyfile::{EncryptedKeyfile, KeyfileText};
use crate::scheme::Scheme;
use crate::vault::{
    get_address, is_new_wallet, keyfile_address, keyfile_signed, keyfile_verified, new_wallet,
    sign_with_keyfile, unlocked, verify_with_keyfile,
};
use vstd::prelude::*;
use vstd::string::{StrSliceExecFns, StringExecFns};

verus! {

/// The characters that no wallet name holds: the two path separators and
/// NUL.
pub open spec fn is_separator(c: char) -> bool {
    c == '/' || c == '\\' || c == '\0'
}

/// Whether `name` can name a wallet: it is not empty, is neither `.` nor
/// `..`, and holds no separator.
pub open spec fn wallet_name_ok(name: Seq<char>) -> bool {
    &&& name.len() > 0
    &&& !(name.len() == 1 && name[0] == '.')
    &&& !(name.len() == 2 && name[0] == '.' && name[1] == '.')
    &&& forall|i: int| 0 <= i < name.len() ==> !is_separator(#[trigger] name[i])
}

/// Decides whether `name` can name a wallet.
pub fn is_wallet_name(name: &str) -> (ok: bool)
    ensures
        ok == wallet_name_ok(name@),
{
    let len: usize = name.unicode_len();
    if len == 0 {
        return false;
    }
    if len == 1 && name.get_char(0) == '.' {
        return false;
    }
    if len == 2 && name.get_char(0) == '.' && name.get_char(1) == '.' {
        return false;
    }
    let mut i: usize = 0;
    while i < len
        invariant
            i <= len,
            len == name@.len(),
            forall|j: int| 0 <= j < i ==> !is_separator(#[trigger] name@[j]),
        decreases len - i,
    {
        let c = name.get_char(i);
        if c == '/' || c == '\\' || c == '\0' {
            return false;
        }
        i += 1;
    }
    true
}

/// A keyfile under its wallet name.
struct WalletEntry {
    name: String,
    keyfile: EncryptedKeyfile,
}

/// The keyfiles of a deployment by wallet name, and the scheme they are
/// for. A name with no keyfile does not exist; a name with a keyfile is
/// locked, and is unlocked only inside a single signing call.
pub struct Keystore {
    scheme: Scheme,
    wallets: Vec<WalletEntry>,
}

/// Whether the entry at `i` is stored under `name`.
spec fn holds_at(wallets: Seq<WalletEntry>, i: int, name: Seq<char>) -> bool {
    0 <= i < wallets.len() && wallets[i].name@ == name
}

/// Whether no name is stored twice.
spec fn distinct_names(wallets: Seq<WalletEntry>) -> bool {
    forall|i: int, j: int|
        0 <= i < j < wallets.len() ==> (#[trigger] wallets[i]).name@ != (#[trigger] wallets[j]).name@
}

/// The keyfiles by name.
spec fn by_name(wallets: Seq<WalletEntry>) -> Map<Seq<char>, KeyfileText> {
    Map::new(
        |name: Seq<char>| exists|i: int| holds_at(wallets, i, name),
        |name: Seq<char>| wallets[choose|i: int| holds_at(wallets, i, name)].keyfile@,
    )
}

/// The entry at `i` is the one the map shows under its name.
proof fn lemma_entry_by_name(wallets: Seq<WalletEntry>, i: int)
    requires
        distinct_names(wallets),
        0 <= i < wallets.len(),
    ensures
        by_name(wallets).contains_key(wallets[i].name@),
        by_name(wallets)[wallets[i].name@] == wallets[i].keyfile@,
{
    let name = wallets[i].name@;
    assert(holds_at(wallets, i, name));
    let chosen: int = choose|k: int| holds_at(wallets, k, name);
    assert(holds_at(wallets, chosen, name));
    if chosen < i {
        assert(wallets[chosen].name@ != wallets[i].name@);
    } else if i < chosen {
        assert(wallets[i].name@ != wallets[chosen].name@);
    }
}

/// Storing a keyfile under a name that is free adds that one binding.
proof fn lemma_push_by_name(wallets: Seq<WalletEntry>, entry: WalletEntry)
    requires
        distinct_names(wallets),
        !by_name(wallets).contains_key(entry.name@),
    ensures
        distinct_names(wallets.push(entry)),
        by_name(wallets.push(entry)) == by_name(wallets).insert(entry.name@, entry.keyfile@),
{
    let more = wallets.push(entry);
    assert forall|i: int, j: int| 0 <= i < j < more.len() implies (#[trigger] more[i]).name@ != (
    #[trigger] more[j]).name@ by {
        if j == wallets.len() {
            if more[i].name@ == entry.name@ {
                assert(holds_at(wallets, i, entry.name@));
            }
        } else {
            assert(wallets[i].name@ != wallets[j].name@);
        }
    }
    let expected = by_name(wallets).insert(entry.name@, entry.keyfile@);
    assert forall|name: Seq<char>| by_name(more).contains_key(name) <==> expected.contains_key(
        name,
    ) by {
        if by_name(more).contains_key(name) {
            let i: int = choose|i: int| holds_at(more, i, name);
            if i < wallets.len() {
                assert(holds_at(wallets, i, name));
            }
        }
        if expected.contains_key(name) {
            if name == entry.name@ {
                assert(holds_at(more, wallets.len() as int, name));
            } else {
                let i: int = choose|i: int| holds_at(wallets, i, name);
                assert(holds_at(more, i, name));
            }
        }
    }
    assert forall|name: Seq<char>| by_name(more).contains_key(name) implies by_name(more)[name]
        == expected[name] by {
        let i: int = choose|i: int| holds_at(more, i, name);
        lemma_entry_by_name(more, i);
        if i < wallets.len() {
            lemma_entry_by_name(wallets, i);
            assert(more[i] == wallets[i]);
        }
    }
    assert(by_name(more) =~= expected);
}

/// What an attempt to create a wallet under `name` does to the keyfiles:
/// under a name that is taken it fails and changes nothing; under a free
/// name it succeeds and adds a keyfile under that name and no other.
pub open spec fn creation_step(
    before: Map<Seq<char>, KeyfileText>,
    after: Map<Seq<char>, KeyfileText>,
    name: Seq<char>,
    succeeded: bool,
) -> bool {
    if before.contains_key(name) {
        !succeeded && after == before
    } else {
        succeeded && after == before.insert(name, after[name])
    }
}

/// Of any number of attempts to create a wallet under one free name, made
/// one after the other, the first succeeds and every later one fails and
/// leaves the keyfile of the first in place.
pub proof fn lemma_one_creation_wins(
    states: Seq<Map<Seq<char>, KeyfileText>>,
    outcomes: Seq<bool>,
    name: Seq<char>,
)
    requires
        outcomes.len() >= 1,
        states.len() == outcomes.len() + 1,
        !states[0].contains_key(name),
        forall|i: int|
            0 <= i < outcomes.len() ==> creation_step(
                #[trigger] states[i],
                states[i + 1],
                name,
                outcomes[i],
            ),
    ensures
        outcomes[0],
        forall|i: int| 1 <= i < outcomes.len() ==> !#[trigger] outcomes[i],
        forall|i: int| 1 <= i < states.len() ==> #[trigger] states[i] == states[1],
        states[1].contains_key(name),
    decreases outcomes.len(),
{
    assert(creation_step(states[0], states[1], name, outcomes[0]));
    if outcomes.len() > 1 {
        let n: int = outcomes.len() - 1;
        lemma_one_creation_wins(states.take(n + 1), outcomes.take(n), name);
        assert(states.take(n + 1)[n] == states[n]);
        assert(states.take(n + 1)[1] == states[1]);
        assert(forall|i: int| 1 <= i < n + 1 ==> states.take(n + 1)[i] == states[i]);
        assert(forall|i: int| 0 <= i < n ==> outcomes.take(n)[i] == outcomes[i]);
        assert(creation_step(states[n], states[n + 1], name, outcomes[n]));
    }
}

/// What a [`Keystore`] holds: the scheme of the deployment, and the
/// keyfiles by wallet name.
pub struct KeystoreView {
    pub scheme: Scheme,
    pub wallets: Map<Seq<char>, KeyfileText>,
}

impl View for Keystore {
    type V = KeystoreView;

    closed spec fn view(&self) -> KeystoreView {
        KeystoreView { scheme: self.scheme, wallets: by_name(self.wallets@) }
    }
}

impl Keystore {
    #[verifier::type_invariant]
    spec fn no_name_twice(&self) -> bool {
        distinct_names(self.wallets@)
    }

    /// What [`Self::get_address`] gives for `name`.
    pub open spec fn address_of(&self, name: Seq<char>) -> Result<Seq<char>, KeystoreError> {
        if self@.wallets.contains_key(name) {
            keyfile_address(self@.wallets[name])
        } else {
            Err(KeystoreError::NotFound)
        }
    }

    /// What [`Self::sign_as`] gives for `name`.
    pub open spec fn signed_as(
        &self,
        name: Seq<char>,
        password: Seq<char>,
        message: Seq<u8>,
    ) -> Result<Seq<u8>, KeystoreError> {
        if self@.wallets.contains_key(name) {
            keyfile_signed(self@.scheme, self@.wallets[name], password, message)
        } else {
            Err(KeystoreError::NotFound)
        }
    }

    /// What [`Self::verify_for`] gives for `name`.
    pub open spec fn verified_for(&self, name: Seq<char>, signed: Seq<u8>) -> Result<
        Option<Seq<u8>>,
        KeystoreError,
    > {
        if self@.wallets.contains_key(name) {
            keyfile_verified(self@.scheme, self@.wallets[name], signed)
        } else {
            Err(KeystoreError::NotFound)
        }
    }

    /// An empty keystore for `scheme`.
    pub fn new(scheme: Scheme) -> (store: Keystore)
        ensures
            store@.wallets == Map::<Seq<char>, KeyfileText>::empty(),
            store@.scheme == scheme,
    {
        let store = Keystore { scheme, wallets: Vec::new() };
        proof {
            assert(store@.wallets =~= Map::<Seq<char>, KeyfileText>::empty());
        }
        store
    }

    /// The scheme the keyfiles are for.
    pub fn scheme(&self) -> (scheme: Scheme)
        ensures
            scheme == self@.scheme,
    {
        self.scheme
    }

    /// Where `name` is stored, if it is.
    fn find(&self, name: &str) -> (r: Option<usize>)
        ensures
            r matches Some(i) ==> holds_at(self.wallets@, i as int, name@),
            r is None ==> !self@.wallets.contains_key(name@),
    {
        let wanted = String::from_str(name);
        let mut i: usize = 0;
        while i < self.wallets.len()
            invariant
                i <= self.wallets@.len(),
                wanted@ == name@,
                forall|j: int| 0 <= j < i ==> !holds_at(self.wallets@, j, name@),
            decreases self.wallets@.len() - i,
        {
            if self.wallets[i].name == wanted {
                return Some(i);
            }
            i += 1;
        }
        None
    }

    /// Adds an entry under a free name. The entries are taken out of the
    /// keystore, extended and put back, so that no name is stored twice at
    /// any moment at which the keystore holds them.
    fn store(&mut self, entry: WalletEntry)
        requires
            !old(self)@.wallets.contains_key(entry.name@),
        ensures
            final(self)@.scheme == old(self)@.scheme,
            final(self)@.wallets == old(self)@.wallets.insert(entry.name@, entry.keyfile@),
    {
        proof {
            use_type_invariant(&*self);
            lemma_push_by_name(self.wallets@, entry);
        }
        let mut wallets: Vec<WalletEntry> = Vec::new();
        core::mem::swap(&mut self.wallets, &mut wallets);
        wallets.push(entry);
        core::mem::swap(&mut self.wallets, &mut wallets);
    }

    /// The keyfile stored under `name`; `NotFound` exactly when there is
    /// none.
    pub fn keyfile(&self, name: &str) -> (r: Result<&EncryptedKeyfile, KeystoreError>)
        ensures
            r matches Ok(keyfile) ==> self@.wallets.contains_key(name@) && self@.wallets[name@] == keyfile@,
            r matches Err(e) ==> e == KeystoreError::NotFound && !self@.wallets.contains_key(name@),
    {
        match self.find(name) {
            Some(i) => {
                proof {
                    use_type_invariant(self);
                    lemma_entry_by_name(self.wallets@, i as int);
                }
                Ok(&self.wallets[i].keyfile)
            },
            None => Err(KeystoreError::NotFound),
        }
    }

    /// Stores a keyfile made elsewhere, as when the keyfiles of a deployment
    /// are loaded. Fails with `Conflict`, and changes nothing, exactly when
    /// `name` is taken.
    pub fn insert(&mut self, name: &str, keyfile: EncryptedKeyfile) -> (r: Result<
        (),
        KeystoreError,
    >)
        ensures
            final(self)@.scheme == old(self)@.scheme,
            r is Err <==> old(self)@.wallets.contains_key(name@),
            r matches Err(e) ==> e == KeystoreError::Conflict && final(self)@.wallets == old(self)@.wallets,
            r is Ok ==> final(self)@.wallets == old(self)@.wallets.insert(name@, keyfile@),
            creation_step(old(self)@.wallets, final(self)@.wallets, name@, r is Ok),
    {
        match self.find(name) {
            Some(i) => {
                proof {
                    use_type_invariant(&*self);
                    lemma_entry_by_name(self.wallets@, i as int);
                }
                Err(KeystoreError::Conflict)
            },
            None => {
                self.store(WalletEntry { name: String::from_str(name), keyfile });
                Ok(())
            },
        }
    }

    /// Creates a wallet under `name`, protected by `password`, and returns
    /// its address. Fails with `Conflict`, and changes nothing, exactly
    /// when `name` is taken: a keyfile is never overwritten.
    pub fn create_wallet(&mut self, name: &str, password: &str) -> (r: Result<
        String,
        KeystoreError,
    >)
        requires
            password_fits(password@),
        ensures
            final(self)@.scheme == old(self)@.scheme,
            creation_step(old(self)@.wallets, final(self)@.wallets, name@, r is Ok),
            r matches Err(e) ==> e == KeystoreError::Conflict,
            r matches Ok(address) ==> is_new_wallet(
                old(self)@.scheme,
                password@,
                final(self)@.wallets[name@],
                address@,
            ),
    {
        match self.find(name) {
            Some(i) => {
                proof {
                    use_type_invariant(&*self);
                    lemma_entry_by_name(self.wallets@, i as int);
                }
                Err(KeystoreError::Conflict)
            },
            None => {
                let wallet = new_wallet(self.scheme, password);
                self.store(WalletEntry { name: String::from_str(name), keyfile: wallet.keyfile });
                Ok(wallet.address)
            },
        }
    }

    /// Derives the address of the wallet `name` from its public key. No
    /// password is needed.
    pub fn get_address(&self, name: &str) -> (r: Result<String, KeystoreError>)
        ensures
            outcome(r) == self.address_of(name@),
    {
        match self.keyfile(name) {
            Ok(keyfile) => get_address(keyfile),
            Err(e) => Err(e),
        }
    }

    /// Signs `message` as the wallet `name`: opens its keyfile with
    /// `password`, signs, and wipes the secret key. The keystore is left as
    /// it was.
    pub fn sign_as(&self, name: &str, password: &str, message: &[u8]) -> (r: Result<
        Vec<u8>,
        KeystoreError,
    >)
        requires
            password_fits(password@),
        ensures
            outcome(r) == self.signed_as(name@, password@, message@),
            r matches Ok(signed) ==> signed@.len() == self@.scheme.signature_len() + message@.len(),
            r matches Ok(signed) ==> signed@.skip(self@.scheme.signature_len() as int)
                == message@,
            r matches Ok(signed) ==> self@.scheme.recovers(
                unlocked(self@.wallets[name@], password@)->Ok_0,
                signed@,
                message@,
            ),
    {
        match self.keyfile(name) {
            Ok(keyfile) => sign_with_keyfile(self.scheme, keyfile, password, message),
            Err(e) => Err(e),
        }
    }

    /// Verifies a signed message under the public key of the wallet
    /// `name`. A signature that is not valid gives `Ok(None)`.
    pub fn verify_for(&self, name: &str, signed: &[u8]) -> (r: Result<
        Option<Vec<u8>>,
        KeystoreError,
    >)
        ensures
            optional_outcome(r) == self.verified_for(name@, signed@),
    {
        match self.keyfile(name) {
            Ok(keyfile) => verify_with_keyfile(self.scheme, keyfile, signed),
            Err(e) => Err(e),
        }
    }
}

} // verus!
