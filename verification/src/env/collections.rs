//! Sets and maps from the text of an environment variable: a set is written
//! `a,b,c`, a map `k=v,k=v`.

use crate::env::list::{entries, pairs, split, split_at_each, text_pairs, texts};
use crate::env::{MapTryFromEnvError, TryFromEnvValue};
use std::collections::{BTreeMap, BTreeSet, HashMap, HashSet};
use std::hash::Hash;
use vstd::prelude::*;
use vstd::std_specs::hash::obeys_key_model;

verus! {

/// Whether the order of `T` is a total order, as the models of `BTreeSet`
/// and `BTreeMap` need it.
pub open spec fn ordered<T: Ord>() -> bool {
    vstd::laws_cmp::obeys_cmp::<T>()
}

/// Every text gave its item: `items[i]` is what `pieces[i]` was turned into.
pub open spec fn each_parsed<T: TryFromEnvValue>(pieces: Seq<Seq<char>>, items: Seq<T>) -> bool {
    &&& items.len() == pieces.len()
    &&& forall|i: int|
        #![trigger pieces[i]]
        0 <= i < pieces.len() ==> T::parsed(pieces[i], Ok(items[i]))
}

/// The texts before `pieces[at]` gave their items, and `pieces[at]` was
/// turned down with `error`.
pub open spec fn failed_at<T: TryFromEnvValue>(
    pieces: Seq<Seq<char>>,
    at: int,
    error: T::Error,
) -> bool {
    &&& 0 <= at < pieces.len()
    &&& exists|items: Seq<T>| #[trigger] each_parsed::<T>(pieces.take(at), items)
    &&& T::parsed(pieces[at], Err(error))
}

/// The keys of the entries, in their order.
pub open spec fn keys_of(found: Seq<(Seq<char>, Seq<char>)>) -> Seq<Seq<char>> {
    found.map_values(|entry: (Seq<char>, Seq<char>)| entry.0)
}

/// The values of the entries, in their order.
pub open spec fn values_of(found: Seq<(Seq<char>, Seq<char>)>) -> Seq<Seq<char>> {
    found.map_values(|entry: (Seq<char>, Seq<char>)| entry.1)
}

/// The map that holds `values[i]` under `keys[i]`; where a key comes twice,
/// the later value stays.
pub open spec fn map_of<K, V>(keys: Seq<K>, values: Seq<V>) -> Map<K, V>
    decreases keys.len(),
{
    if keys.len() == 0 || values.len() == 0 {
        Map::empty()
    } else {
        map_of(keys.drop_last(), values.drop_last()).insert(keys.last(), values.last())
    }
}

/// What reading a set from its pieces gives: the set of the items if every
/// piece gave one, else the error of the first piece that was turned down.
/// Without a piece the set is empty, whatever its items are like.
pub open spec fn set_parsed<T: TryFromEnvValue>(
    pieces: Seq<Seq<char>>,
    res: Result<Set<T>, T::Error>,
    modelled: bool,
) -> bool {
    match res {
        Ok(set) => {
            &&& pieces.len() == 0 ==> set == Set::<T>::empty()
            &&& exists|items: Seq<T>|
                #![trigger each_parsed::<T>(pieces, items)]
                each_parsed::<T>(pieces, items) && (modelled ==> set == items.to_set())
        },
        Err(error) => exists|at: int| #[trigger] failed_at::<T>(pieces, at, error),
    }
}

/// What reading a map from its entries gives: the map of the keys and values
/// if every entry gave both, else the error of the first key or value that
/// was turned down. In an entry, the key is read before the value. Without
/// an entry the map is empty, whatever its keys are like.
pub open spec fn map_parsed<K: TryFromEnvValue, V: TryFromEnvValue>(
    found: Seq<(Seq<char>, Seq<char>)>,
    res: Result<Map<K, V>, MapTryFromEnvError<K, V>>,
    modelled: bool,
) -> bool {
    match res {
        Ok(map) => {
            &&& found.len() == 0 ==> map == Map::<K, V>::empty()
            &&& exists|keys: Seq<K>, values: Seq<V>|
                #![trigger each_parsed::<K>(keys_of(found), keys), each_parsed::<V>(values_of(found), values)]
                {
                    &&& each_parsed::<K>(keys_of(found), keys)
                    &&& each_parsed::<V>(values_of(found), values)
                    &&& modelled ==> map == map_of(keys, values)
                }
        },
        Err(MapTryFromEnvError::Key(error)) => exists|at: int|
            #![trigger failed_at::<K>(keys_of(found), at, error)]
            {
                &&& failed_at::<K>(keys_of(found), at, error)
                &&& exists|values: Seq<V>| #[trigger]
                    each_parsed::<V>(values_of(found).take(at), values)
            },
        Err(MapTryFromEnvError::Value(error)) => exists|at: int|
            #![trigger failed_at::<V>(values_of(found), at, error)]
            {
                &&& failed_at::<V>(values_of(found), at, error)
                &&& exists|keys: Seq<K>| #[trigger] each_parsed::<K>(keys_of(found).take(at), keys)
                &&& exists|key: K| #[trigger] K::parsed(keys_of(found)[at], Ok(key))
            },
    }
}

/// A set whose pieces all gave their items was read.
pub proof fn lemma_set_was_read<T: TryFromEnvValue>(
    pieces: Seq<Seq<char>>,
    items: Seq<T>,
    set: Set<T>,
    modelled: bool,
)
    requires
        each_parsed::<T>(pieces, items),
        modelled ==> set == items.to_set(),
        pieces.len() == 0 ==> set == Set::<T>::empty(),
    ensures
        set_parsed::<T>(pieces, Ok(set), modelled),
{
    let res: Result<Set<T>, T::Error> = Ok(set);
    assert(res->Ok_0 == set);
}

/// A set with a piece that was turned down, after pieces that were not, was
/// turned down for that piece.
pub proof fn lemma_set_was_turned_down<T: TryFromEnvValue>(
    pieces: Seq<Seq<char>>,
    at: int,
    error: T::Error,
    modelled: bool,
)
    requires
        failed_at::<T>(pieces, at, error),
    ensures
        set_parsed::<T>(pieces, Err(error), modelled),
{
    let res: Result<Set<T>, T::Error> = Err(error);
    assert(res->Err_0 == error);
}

/// A map whose entries all gave their keys and values was read.
pub proof fn lemma_map_was_read<K: TryFromEnvValue, V: TryFromEnvValue>(
    found: Seq<(Seq<char>, Seq<char>)>,
    keys: Seq<K>,
    values: Seq<V>,
    map: Map<K, V>,
    modelled: bool,
)
    requires
        each_parsed::<K>(keys_of(found), keys),
        each_parsed::<V>(values_of(found), values),
        modelled ==> map == map_of(keys, values),
        found.len() == 0 ==> map == Map::<K, V>::empty(),
    ensures
        map_parsed::<K, V>(found, Ok(map), modelled),
{
    let res: Result<Map<K, V>, MapTryFromEnvError<K, V>> = Ok(map);
    assert(res->Ok_0 == map);
}

/// A map with a key that was turned down, after entries that were not, was
/// turned down for that key.
pub proof fn lemma_map_key_was_turned_down<K: TryFromEnvValue, V: TryFromEnvValue>(
    found: Seq<(Seq<char>, Seq<char>)>,
    at: int,
    values: Seq<V>,
    error: K::Error,
    modelled: bool,
)
    requires
        failed_at::<K>(keys_of(found), at, error),
        each_parsed::<V>(values_of(found).take(at), values),
    ensures
        map_parsed::<K, V>(found, Err(MapTryFromEnvError::Key(error)), modelled),
{
    let res: Result<Map<K, V>, MapTryFromEnvError<K, V>> = Err(MapTryFromEnvError::Key(error));
    assert(res->Err_0->Key_0 == error);
}

/// A map with a value that was turned down, after entries that were not and
/// behind a key that was not, was turned down for that value.
pub proof fn lemma_map_value_was_turned_down<K: TryFromEnvValue, V: TryFromEnvValue>(
    found: Seq<(Seq<char>, Seq<char>)>,
    at: int,
    keys: Seq<K>,
    key: K,
    error: V::Error,
    modelled: bool,
)
    requires
        failed_at::<V>(values_of(found), at, error),
        each_parsed::<K>(keys_of(found).take(at), keys),
        K::parsed(keys_of(found)[at], Ok(key)),
    ensures
        map_parsed::<K, V>(found, Err(MapTryFromEnvError::Value(error)), modelled),
{
    let res: Result<Map<K, V>, MapTryFromEnvError<K, V>> = Err(MapTryFromEnvError::Value(error));
    assert(res->Err_0->Value_0 == error);
}

/// The view of a set that was read, or the error.
pub open spec fn hash_set_view<T, E>(res: Result<HashSet<T>, E>) -> Result<Set<T>, E> {
    match res {
        Ok(set) => Ok(set@),
        Err(error) => Err(error),
    }
}

/// The view of a set that was read, or the error.
pub open spec fn btree_set_view<T, E>(res: Result<BTreeSet<T>, E>) -> Result<Set<T>, E> {
    match res {
        Ok(set) => Ok(set@),
        Err(error) => Err(error),
    }
}

/// The view of a map that was read, or the error.
pub open spec fn hash_map_view<K, V, E>(res: Result<HashMap<K, V>, E>) -> Result<Map<K, V>, E> {
    match res {
        Ok(map) => Ok(map@),
        Err(error) => Err(error),
    }
}

/// The view of a map that was read, or the error.
pub open spec fn btree_map_view<K, V, E>(res: Result<BTreeMap<K, V>, E>) -> Result<Map<K, V>, E> {
    match res {
        Ok(map) => Ok(map@),
        Err(error) => Err(error),
    }
}

impl<T: TryFromEnvValue + Eq + Hash> TryFromEnvValue for HashSet<T> {
    type Error = T::Error;

    open spec fn parsed(value: Seq<char>, res: Result<Self, Self::Error>) -> bool {
        set_parsed::<T>(split(value, ','), hash_set_view(res), obeys_key_model::<T>())
    }

    fn try_from_env_value(value: String) -> (res: Result<Self, Self::Error>) {
        broadcast use vstd::std_specs::hash::group_hash_axioms;

        let pieces = split_at_each(value.as_str(), ',');
        let mut set: HashSet<T> = HashSet::new();
        let ghost mut items: Seq<T> = Seq::empty();
        let mut i: usize = 0;
        assert(set@ =~= items.to_set());
        while i < pieces.len()
            invariant
                i <= pieces.len(),
                texts(pieces@) == split(value@, ','),
                each_parsed::<T>(texts(pieces@).take(i as int), items),
                i == 0 ==> set@ == Set::<T>::empty(),
                obeys_key_model::<T>() ==> set@ == items.to_set(),
            decreases pieces.len() - i,
        {
            match T::try_from_env_value(pieces[i].clone()) {
                Ok(item) => {
                    proof {
                        items.lemma_push_to_set_commute(item);
                        items = items.push(item);
                    }
                    set.insert(item);
                },
                Err(error) => {
                    proof {
                        lemma_set_was_turned_down::<T>(texts(pieces@), i as int, error, obeys_key_model::<T>());
                    }
                    return Err(error);
                },
            }
            i += 1;
        }
        proof {
            assert(texts(pieces@).take(i as int) == texts(pieces@));
            lemma_set_was_read::<T>(texts(pieces@), items, set@, obeys_key_model::<T>());
        }
        Ok(set)
    }
}

impl<T: TryFromEnvValue + Ord> TryFromEnvValue for BTreeSet<T> {
    type Error = T::Error;

    open spec fn parsed(value: Seq<char>, res: Result<Self, Self::Error>) -> bool {
        set_parsed::<T>(split(value, ','), btree_set_view(res), ordered::<T>())
    }

    fn try_from_env_value(value: String) -> (res: Result<Self, Self::Error>) {
        let pieces = split_at_each(value.as_str(), ',');
        let mut set: BTreeSet<T> = BTreeSet::new();
        let ghost mut items: Seq<T> = Seq::empty();
        let mut i: usize = 0;
        assert(set@ =~= items.to_set());
        while i < pieces.len()
            invariant
                i <= pieces.len(),
                texts(pieces@) == split(value@, ','),
                each_parsed::<T>(texts(pieces@).take(i as int), items),
                i == 0 ==> set@ == Set::<T>::empty(),
                ordered::<T>() ==> set@ == items.to_set(),
            decreases pieces.len() - i,
        {
            match T::try_from_env_value(pieces[i].clone()) {
                Ok(item) => {
                    proof {
                        items.lemma_push_to_set_commute(item);
                        items = items.push(item);
                    }
                    set.insert(item);
                },
                Err(error) => {
                    proof {
                        lemma_set_was_turned_down::<T>(texts(pieces@), i as int, error, ordered::<T>());
                    }
                    return Err(error);
                },
            }
            i += 1;
        }
        proof {
            assert(texts(pieces@).take(i as int) == texts(pieces@));
            lemma_set_was_read::<T>(texts(pieces@), items, set@, ordered::<T>());
        }
        Ok(set)
    }
}

impl<K: TryFromEnvValue + Eq + Hash, V: TryFromEnvValue> TryFromEnvValue for HashMap<K, V> {
    type Error = MapTryFromEnvError<K, V>;

    open spec fn parsed(value: Seq<char>, res: Result<Self, Self::Error>) -> bool {
        map_parsed::<K, V>(pairs(value), hash_map_view(res), obeys_key_model::<K>())
    }

    fn try_from_env_value(value: String) -> (res: Result<Self, Self::Error>) {
        broadcast use vstd::std_specs::hash::group_hash_axioms;

        let found = entries(value.as_str());
        let mut map: HashMap<K, V> = HashMap::new();
        let ghost mut keys: Seq<K> = Seq::empty();
        let ghost mut values: Seq<V> = Seq::empty();
        let mut i: usize = 0;
        while i < found.len()
            invariant
                i <= found.len(),
                text_pairs(found@) == pairs(value@),
                each_parsed::<K>(keys_of(text_pairs(found@)).take(i as int), keys),
                each_parsed::<V>(values_of(text_pairs(found@)).take(i as int), values),
                i == 0 ==> map@ == Map::<K, V>::empty(),
                obeys_key_model::<K>() ==> map@ == map_of(keys, values),
            decreases found.len() - i,
        {
            let key = match K::try_from_env_value(found[i].0.clone()) {
                Ok(key) => key,
                Err(error) => {
                    proof {
                        lemma_map_key_was_turned_down::<K, V>(
                            text_pairs(found@),
                            i as int,
                            values,
                            error,
                            obeys_key_model::<K>(),
                        );
                    }
                    return Err(MapTryFromEnvError::Key(error));
                },
            };
            assert(K::parsed(keys_of(text_pairs(found@))[i as int], Ok(key)));
            let value = match V::try_from_env_value(found[i].1.clone()) {
                Ok(value) => value,
                Err(error) => {
                    proof {
                        lemma_map_value_was_turned_down::<K, V>(
                            text_pairs(found@),
                            i as int,
                            keys,
                            key,
                            error,
                            obeys_key_model::<K>(),
                        );
                    }
                    return Err(MapTryFromEnvError::Value(error));
                },
            };
            proof {
                assert(keys.push(key).drop_last() == keys);
                assert(values.push(value).drop_last() == values);
                keys = keys.push(key);
                values = values.push(value);
            }
            map.insert(key, value);
            i += 1;
        }
        proof {
            assert(keys_of(text_pairs(found@)).take(i as int) == keys_of(text_pairs(found@)));
            assert(values_of(text_pairs(found@)).take(i as int) == values_of(text_pairs(found@)));
            lemma_map_was_read::<K, V>(text_pairs(found@), keys, values, map@, obeys_key_model::<K>());
        }
        Ok(map)
    }
}

impl<K: TryFromEnvValue + Ord, V: TryFromEnvValue> TryFromEnvValue for BTreeMap<K, V> {
    type Error = MapTryFromEnvError<K, V>;

    open spec fn parsed(value: Seq<char>, res: Result<Self, Self::Error>) -> bool {
        map_parsed::<K, V>(pairs(value), btree_map_view(res), ordered::<K>())
    }

    fn try_from_env_value(value: String) -> (res: Result<Self, Self::Error>) {
        let found = entries(value.as_str());
        let mut map: BTreeMap<K, V> = BTreeMap::new();
        let ghost mut keys: Seq<K> = Seq::empty();
        let ghost mut values: Seq<V> = Seq::empty();
        let mut i: usize = 0;
        while i < found.len()
            invariant
                i <= found.len(),
                text_pairs(found@) == pairs(value@),
                each_parsed::<K>(keys_of(text_pairs(found@)).take(i as int), keys),
                each_parsed::<V>(values_of(text_pairs(found@)).take(i as int), values),
                i == 0 ==> map@ == Map::<K, V>::empty(),
                ordered::<K>() ==> map@ == map_of(keys, values),
            decreases found.len() - i,
        {
            let key = match K::try_from_env_value(found[i].0.clone()) {
                Ok(key) => key,
                Err(error) => {
                    proof {
                        lemma_map_key_was_turned_down::<K, V>(
                            text_pairs(found@),
                            i as int,
                            values,
                            error,
                            ordered::<K>(),
                        );
                    }
                    return Err(MapTryFromEnvError::Key(error));
                },
            };
            assert(K::parsed(keys_of(text_pairs(found@))[i as int], Ok(key)));
            let value = match V::try_from_env_value(found[i].1.clone()) {
                Ok(value) => value,
                Err(error) => {
                    proof {
                        lemma_map_value_was_turned_down::<K, V>(
                            text_pairs(found@),
                            i as int,
                            keys,
                            key,
                            error,
                            ordered::<K>(),
                        );
                    }
                    return Err(MapTryFromEnvError::Value(error));
                },
            };
            proof {
                assert(keys.push(key).drop_last() == keys);
                assert(values.push(value).drop_last() == values);
                keys = keys.push(key);
                values = values.push(value);
            }
            map.insert(key, value);
            i += 1;
        }
        proof {
            assert(keys_of(text_pairs(found@)).take(i as int) == keys_of(text_pairs(found@)));
            assert(values_of(text_pairs(found@)).take(i as int) == values_of(text_pairs(found@)));
            lemma_map_was_read::<K, V>(text_pairs(found@), keys, values, map@, ordered::<K>());
        }
        Ok(map)
    }
}

} // verus!
