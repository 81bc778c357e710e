use vstd::prelude::*;

verus! {

/// What serde_yaml parses a YAML mapping with string keys and string
/// values into: the key/value pairs in ascending key order, or nothing
/// when it does not accept the text as such a mapping.
pub uninterp spec fn yaml_pairs_of(text: Seq<char>) -> Option<Seq<(Seq<char>, Seq<char>)>>;

/// The views of a sequence of key/value pairs.
pub open spec fn pairs_views(pairs: Seq<(String, String)>) -> Seq<(Seq<char>, Seq<char>)> {
    pairs.map_values(|p: (String, String)| (p.0@, p.1@))
}

/// Relies on serde_yaml::from_str: parses a YAML mapping with string keys
/// and string values; the pairs come out of its map in ascending key
/// order.
#[verifier::external_body]
fn parse_yaml_pairs(text: &str) -> (r: Option<Vec<(String, String)>>)
    ensures
        r is Some <==> yaml_pairs_of(text@) is Some,
        (r matches Some(v) ==> Some(pairs_views(v@)) == yaml_pairs_of(text@)),
{
    match serde_yaml::from_str::<std::collections::BTreeMap<String, String>>(text) {
        Ok(map) => Some(map.into_iter().collect()),
        Err(_) => None,
    }
}

/// The value stored under `key` in an association list: the value of the
/// first pair carrying that key, if any.
pub open spec fn assoc_lookup(pairs: Seq<(String, String)>, key: Seq<char>) -> Option<Seq<char>>
    decreases pairs.len(),
{
    if pairs.len() == 0 {
        None
    } else if pairs[0].0@ == key {
        Some(pairs[0].1@)
    } else {
        assoc_lookup(pairs.skip(1), key)
    }
}

/// Configuration read from a YAML mapping of string keys to string values.
pub struct YamlConfig {
    pub file_name: String,
    pub config_values: Vec<(String, String)>,
}

impl YamlConfig {
    pub fn new(file_name: &str) -> (r: YamlConfig)
        ensures
            r.file_name@ == file_name@,
            r.config_values@ == Seq::<(String, String)>::empty(),
    {
        YamlConfig { file_name: file_name.to_owned(), config_values: Vec::new() }
    }

    /// Parses the given YAML text (the contents of `file_name`, which the
    /// caller reads) into the configuration mapping. Fails exactly when the
    /// text is not a string-to-string mapping, and then changes nothing.
    pub fn parse(&mut self, contents: &str) -> (r: Result<(), ()>)
        ensures
            r is Ok <==> yaml_pairs_of(contents@) is Some,
            r is Ok ==> Some(pairs_views(final(self).config_values@)) == yaml_pairs_of(contents@),
            r is Err ==> final(self).config_values == old(self).config_values,
            final(self).file_name == old(self).file_name,
    {
        match parse_yaml_pairs(contents) {
            Some(pairs) => {
                self.config_values = pairs;
                Ok(())
            },
            None => Err(()),
        }
    }

    /// The configured value under `key`, if any.
    fn lookup(&self, key: &str) -> (r: Option<String>)
        ensures
            (r matches Some(v) ==> assoc_lookup(self.config_values@, key@) == Some(v@)),
            (r is None ==> assoc_lookup(self.config_values@, key@) is None),
    {
        let wanted = key.to_owned();
        let mut i: usize = 0;
        proof {
            assert(self.config_values@.skip(0) =~= self.config_values@);
        }
        while i < self.config_values.len()
            invariant
                i <= self.config_values@.len(),
                wanted@ == key@,
                assoc_lookup(self.config_values@, key@) == assoc_lookup(
                    self.config_values@.skip(i as int),
                    key@,
                ),
            decreases self.config_values@.len() - i,
        {
            let ghost rest = self.config_values@.skip(i as int);
            let pair = &self.config_values[i];
            proof {
                assert(rest[0] == self.config_values@[i as int]);
                assert(rest.skip(1) =~= self.config_values@.skip(i as int + 1));
            }
            if pair.0 == wanted {
                return Some(pair.1.clone());
            }
            i = i + 1;
        }
        proof {
            assert(self.config_values@.skip(i as int).len() == 0);
        }
        None
    }

    /// The configured name of the record file, if one is configured.
    pub fn record_filename(&self) -> (r: Option<String>)
        ensures
            (r matches Some(v) ==> assoc_lookup(self.config_values@, "record_name"@) == Some(v@)),
            (r is None ==> assoc_lookup(self.config_values@, "record_name"@) is None),
    {
        self.lookup("record_name")
    }

    /// The configured directory of the record file, if one is configured.
    pub fn record_location(&self) -> (r: Option<String>)
        ensures
            (r matches Some(v) ==> assoc_lookup(self.config_values@, "record_location"@) == Some(
                v@,
            )),
            (r is None ==> assoc_lookup(self.config_values@, "record_location"@) is None),
    {
        self.lookup("record_location")
    }
}

/// The record location and record name to use: the configured values where
/// present, the defaults otherwise.
pub fn get_record_name_and_collection(config: &YamlConfig) -> (r: (String, String))
    ensures
        (match assoc_lookup(config.config_values@, "record_location"@) {
            Some(loc) => r.0@ == loc,
            None => r.0@ == "./"@,
        }),
        (match assoc_lookup(config.config_values@, "record_name"@) {
            Some(name) => r.1@ == name,
            None => r.1@ == "pom-record"@,
        }),
{
    let filename = match config.record_filename() {
        Some(name) => name,
        None => "pom-record".to_owned(),
    };
    let location = match config.record_location() {
        Some(loc) => loc,
        None => "./".to_owned(),
    };
    (location, filename)
}

} // verus!
