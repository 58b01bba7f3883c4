//! The server pool and the choice of a connection target.

use vstd::prelude::*;

use crate::types::{Load, VpnServer, LOAD_ONE_BITS};

verus! {

/// The characters of an optional string slice.
pub open spec fn opt_str_view(s: Option<&str>) -> Option<Seq<char>> {
    match s {
        Some(c) => Some(c@),
        None => None,
    }
}

/// Whether `server` may be chosen: it supports post-quantum key exchange
/// and, where a country is asked for, lies in exactly that country.
pub open spec fn eligible(server: VpnServer, country: Option<Seq<char>>) -> bool {
    &&& server.pqc_enabled
    &&& match country {
        Some(c) => server.country@ == c,
        None => true,
    }
}

/// Whether position `i` holds the choice among the first `n` servers of
/// `pool`: an eligible server whose load no eligible server among them
/// undercuts, and the first of those.
pub open spec fn is_best_among(
    pool: Seq<VpnServer>,
    country: Option<Seq<char>>,
    n: int,
    i: int,
) -> bool {
    &&& 0 <= i < n <= pool.len()
    &&& eligible(pool[i], country)
    &&& forall|j: int|
        0 <= j < n && eligible(#[trigger] pool[j], country) ==> pool[i].load.spec_bits()
            <= pool[j].load.spec_bits()
    &&& forall|j: int|
        0 <= j < i && eligible(#[trigger] pool[j], country) ==> pool[i].load.spec_bits()
            < pool[j].load.spec_bits()
}

/// Whether position `i` holds the choice from the whole of `pool`.
pub open spec fn is_best(pool: Seq<VpnServer>, country: Option<Seq<char>>, i: int) -> bool {
    is_best_among(pool, country, pool.len() as int, i)
}

/// Whether `pool` holds no server that may be chosen.
pub open spec fn none_eligible(pool: Seq<VpnServer>, country: Option<Seq<char>>) -> bool {
    forall|j: int| 0 <= j < pool.len() ==> !eligible(#[trigger] pool[j], country)
}

/// The position of the choice from `pool`, if any server may be chosen.
pub open spec fn best_index(pool: Seq<VpnServer>, country: Option<Seq<char>>) -> Option<int> {
    if exists|i: int| is_best(pool, country, i) {
        Some(choose|i: int| is_best(pool, country, i))
    } else {
        None
    }
}

/// The choice from `pool`, if any server may be chosen.
pub open spec fn best_server(pool: Seq<VpnServer>, country: Option<Seq<char>>) -> Option<
    VpnServer,
> {
    match best_index(pool, country) {
        Some(i) => Some(pool[i]),
        None => None,
    }
}

/// At most one position holds the choice.
pub proof fn lemma_best_is_unique(
    pool: Seq<VpnServer>,
    country: Option<Seq<char>>,
    i: int,
    j: int,
)
    requires
        is_best(pool, country, i),
        is_best(pool, country, j),
    ensures
        i == j,
{
    if i < j {
        assert(eligible(pool[i], country));
    } else if j < i {
        assert(eligible(pool[j], country));
    }
}

/// The position that holds the choice is the one that `best_index` names.
pub proof fn lemma_best_index_is(pool: Seq<VpnServer>, country: Option<Seq<char>>, i: int)
    requires
        is_best(pool, country, i),
    ensures
        best_index(pool, country) == Some(i),
        best_server(pool, country) == Some(pool[i]),
{
    let k = choose|k: int| is_best(pool, country, k);
    lemma_best_is_unique(pool, country, i, k);
}

/// Without an eligible server there is no choice.
pub proof fn lemma_none_eligible_no_best(pool: Seq<VpnServer>, country: Option<Seq<char>>)
    requires
        none_eligible(pool, country),
    ensures
        best_index(pool, country) is None,
        best_server(pool, country) is None,
{
    assert forall|i: int| !is_best(pool, country, i) by {
        if is_best(pool, country, i) {
            assert(eligible(pool[i], country));
        }
    }
}

/// A server without post-quantum support is never the choice: from a pool
/// of such servers nothing is chosen, whatever their loads.
pub proof fn lemma_without_pqc_no_choice(pool: Seq<VpnServer>, country: Option<Seq<char>>)
    requires
        forall|j: int| 0 <= j < pool.len() ==> !(#[trigger] pool[j]).pqc_enabled,
    ensures
        best_server(pool, country) is None,
{
    lemma_none_eligible_no_best(pool, country);
}

/// Among eligible servers that share the least load the choice is the one
/// that was added first.
pub proof fn lemma_tie_goes_to_first(
    pool: Seq<VpnServer>,
    country: Option<Seq<char>>,
    i: int,
    j: int,
)
    requires
        is_best(pool, country, i),
        0 <= j < pool.len(),
        eligible(pool[j], country),
        pool[j].load.spec_bits() == pool[i].load.spec_bits(),
    ensures
        i <= j,
{
}

/// Whether position `i` is the first in `pool` whose server has the identifier `id`.
pub open spec fn is_first_with_id(pool: Seq<VpnServer>, id: Seq<char>, i: int) -> bool {
    &&& 0 <= i < pool.len()
    &&& pool[i].id@ == id
    &&& forall|j: int| 0 <= j < i ==> (#[trigger] pool[j]).id@ != id
}

/// Whether no server in `pool` has the identifier `id`.
pub open spec fn no_server_with_id(pool: Seq<VpnServer>, id: Seq<char>) -> bool {
    forall|j: int| 0 <= j < pool.len() ==> (#[trigger] pool[j]).id@ != id
}

/// The pool after a load update: the first server with the identifier `id`
/// gets the load made of `load_bits`, and nothing else changes.
pub open spec fn with_load(pool: Seq<VpnServer>, i: int, load_bits: u32) -> Seq<VpnServer> {
    pool.update(i, VpnServer { load: Load::spec_from_bits(load_bits), ..pool[i] })
}

/// Chooser of a connection target from a pool of servers.
pub struct NeuralRouter {
    servers: Vec<VpnServer>,
}

impl View for NeuralRouter {
    type V = Seq<VpnServer>;

    /// The pool, in the order in which the servers were added.
    closed spec fn view(&self) -> Seq<VpnServer> {
        self.servers@
    }
}

impl NeuralRouter {
    /// A router with an empty pool.
    pub fn new() -> (r: Self)
        ensures
            r@ == Seq::<VpnServer>::empty(),
    {
        NeuralRouter { servers: Vec::new() }
    }

    /// Adds `server` at the end of the pool.
    pub fn add_server(&mut self, server: VpnServer)
        ensures
            final(self)@ == old(self)@.push(server),
    {
        self.servers.push(server);
    }

    /// The pool, in the order in which the servers were added.
    pub fn servers(&self) -> (r: &[VpnServer])
        ensures
            r@ == self@,
    {
        self.servers.as_slice()
    }

    /// The position of the choice: the eligible server with the least load,
    /// the first of them where several share it.
    fn find_best_index(&self, country: Option<&str>) -> (r: Option<usize>)
        ensures
            match r {
                Some(i) => is_best(self@, opt_str_view(country), i as int),
                None => none_eligible(self@, opt_str_view(country)),
            },
    {
        let ghost wanted = opt_str_view(country);
        let asked: Option<String> = match country {
            Some(c) => Some(c.to_owned()),
            None => None,
        };
        let n: usize = self.servers.len();
        let mut best: Option<usize> = None;
        let mut i: usize = 0;
        while i < n
            invariant
                i <= n,
                n == self.servers@.len(),
                wanted == opt_str_view(country),
                match asked {
                    Some(c) => wanted == Some(c@),
                    None => wanted is None,
                },
                match best {
                    Some(b) => is_best_among(self.servers@, wanted, i as int, b as int),
                    None => forall|j: int|
                        0 <= j < i ==> !eligible(#[trigger] self.servers@[j], wanted),
                },
            decreases n - i,
        {
            let server = &self.servers[i];
            let in_country: bool = match &asked {
                Some(c) => server.country == *c,
                None => true,
            };
            if server.pqc_enabled && in_country {
                match best {
                    Some(b) => {
                        if server.load.to_bits() < self.servers[b].load.to_bits() {
                            best = Some(i);
                        }
                    },
                    None => {
                        best = Some(i);
                    },
                }
            }
            i = i + 1;
        }
        best
    }

    /// The best server of a country: among the servers of exactly that
    /// country that support post-quantum key exchange, the one with the least
    /// load, and the first of them in the pool where several share it.
    /// `None` where the pool holds no such server.
    pub fn find_best_server(&self, country: &str) -> (r: Option<&VpnServer>)
        ensures
            match r {
                Some(s) => best_server(self@, Some(country@)) == Some(*s),
                None => best_server(self@, Some(country@)) is None,
            },
            r is None <==> none_eligible(self@, Some(country@)),
            r matches Some(s) ==> exists|i: int| is_best(self@, Some(country@), i) && self@[i] == *s,
    {
        match self.find_best_index(Some(country)) {
            Some(i) => {
                proof {
                    lemma_best_index_is(self@, Some(country@), i as int);
                    assert(eligible(self@[i as int], Some(country@)));
                }
                Some(&self.servers[i])
            },
            None => {
                proof {
                    lemma_none_eligible_no_best(self@, Some(country@));
                }
                None
            },
        }
    }

    /// The best server overall: among the servers that support post-quantum
    /// key exchange, the one with the least load, and the first of them in
    /// the pool where several share it. `None` where the pool holds no such
    /// server.
    pub fn find_optimal_server(&self) -> (r: Option<&VpnServer>)
        ensures
            match r {
                Some(s) => best_server(self@, None) == Some(*s),
                None => best_server(self@, None) is None,
            },
            r is None <==> none_eligible(self@, None),
            r matches Some(s) ==> exists|i: int| is_best(self@, None, i) && self@[i] == *s,
    {
        match self.find_best_index(None) {
            Some(i) => {
                proof {
                    lemma_best_index_is(self@, None, i as int);
                    assert(eligible(self@[i as int], None));
                }
                Some(&self.servers[i])
            },
            None => {
                proof {
                    lemma_none_eligible_no_best(self@, None);
                }
                None
            },
        }
    }

    /// Gives the first server with the identifier `server_id` the load that
    /// `load_bits` encodes, brought into the range from 0.0 to 1.0. Does
    /// nothing where no server has that identifier.
    pub fn update_server_load(&mut self, server_id: &str, load_bits: u32)
        ensures
            final(self)@.len() == old(self)@.len(),
            no_server_with_id(old(self)@, server_id@) ==> final(self)@ == old(self)@,
            forall|i: int|
                is_first_with_id(old(self)@, server_id@, i) ==> {
                    &&& final(self)@ == with_load(old(self)@, i, load_bits)
                    &&& final(self)@[i].load.spec_bits() <= LOAD_ONE_BITS
                },
    {
        let asked: String = server_id.to_owned();
        let n: usize = self.servers.len();
        let mut i: usize = 0;
        while i < n
            invariant
                i <= n,
                n == self.servers@.len(),
                asked@ == server_id@,
                self.servers@ == old(self).servers@,
                forall|j: int| 0 <= j < i ==> (#[trigger] self.servers@[j]).id@ != server_id@,
            decreases n - i,
        {
            if self.servers[i].id == asked {
                self.servers[i].load = Load::from_bits(load_bits);
                assert(self.servers@ =~= with_load(old(self).servers@, i as int, load_bits));
                assert forall|k: int| is_first_with_id(old(self)@, server_id@, k) implies k == i by {
                    if k < i {
                    } else if k > i {
                        assert(old(self)@[i as int].id@ == server_id@);
                    }
                }
                return ;
            }
            i = i + 1;
        }
        assert forall|k: int| !is_first_with_id(old(self)@, server_id@, k) by {}
    }
}

impl Default for NeuralRouter {
    fn default() -> (r: Self)
        ensures
            r@ == Seq::<VpnServer>::empty(),
    {
        NeuralRouter::new()
    }
}

} // verus!
