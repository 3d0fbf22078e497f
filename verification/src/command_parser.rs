use vstd::prelude::*;

use crate::errors::VaultError;

verus! {

/// Everything one invocation needs: which operation to run, the file paths
/// it works on, and the key source the command line named.
pub struct CommandParams {
    pub command: String,
    pub in_file_name: String,
    pub out_file_name: String,
    pub key_file_name: String,
    pub key_passphrase: String,
    pub use_key_passphrase: bool,
}

impl CommandParams {
    /// Empty parameters, to be filled in by `parse_command`.
    pub fn new() -> (r: CommandParams)
        ensures
            r.command@ == Seq::<char>::empty(),
            r.in_file_name@ == Seq::<char>::empty(),
            r.out_file_name@ == Seq::<char>::empty(),
            r.key_file_name@ == Seq::<char>::empty(),
            r.key_passphrase@ == Seq::<char>::empty(),
            r.use_key_passphrase == false,
    {
        CommandParams {
            command: String::new(),
            in_file_name: String::new(),
            out_file_name: String::new(),
            key_file_name: String::new(),
            key_passphrase: String::new(),
            use_key_passphrase: false,
        }
    }
}

/// The two commands that run the cipher pipeline.
pub open spec fn is_cipher_command(c: Seq<char>) -> bool {
    c == "encrypt"@ || c == "decrypt"@
}

/// Exactly one key source is named: a key file or a passphrase.
pub open spec fn one_key_source(key_arg: Option<&str>, phrase_arg: Option<&str>) -> bool {
    (key_arg is Some && phrase_arg is None) || (key_arg is None && phrase_arg is Some)
}

/// When a command line is accepted: the cipher commands need both file paths
/// and exactly one key source; key generation needs a key file path.
pub open spec fn parse_command_accepts(
    subcommand: Option<String>,
    in_arg: Option<&str>,
    out_arg: Option<&str>,
    key_arg: Option<&str>,
    phrase_arg: Option<&str>,
) -> bool {
    match subcommand {
        Some(c) => if is_cipher_command(c@) {
            in_arg is Some && out_arg is Some && one_key_source(key_arg, phrase_arg)
        } else if c@ == "genkey"@ {
            key_arg is Some
        } else {
            false
        },
        None => false,
    }
}

/// The key-source slots of `p1` are those of `p0`, untouched.
pub open spec fn key_fields_unchanged(p0: CommandParams, p1: CommandParams) -> bool {
    &&& p1.key_file_name == p0.key_file_name
    &&& p1.key_passphrase == p0.key_passphrase
    &&& p1.use_key_passphrase == p0.use_key_passphrase
}

/// The file-path slots of `p1` are those of `p0`, untouched.
pub open spec fn io_fields_unchanged(p0: CommandParams, p1: CommandParams) -> bool {
    &&& p1.in_file_name == p0.in_file_name
    &&& p1.out_file_name == p0.out_file_name
}

/// Append a required argument's value into its slot; a missing one is
/// reported by its name.
pub fn parse_arg(param_name: &str, param: &mut String, arg: &Option<&str>) -> (r: Result<
    (),
    VaultError,
>)
    ensures
        r is Ok <==> *arg is Some,
        *arg matches Some(s) ==> final(param)@ == old(param)@ + s@,
        *arg is None ==> {
            &&& *final(param) == *old(param)
            &&& (r->Err_0 matches VaultError::InvalidArguments(m) && m@ == "Missing parameter - "@
                + param_name@)
        },
{
    match arg {
        Some(s) => {
            param.append(s);
            Ok(())
        },
        None => {
            let mut m = String::from_str("Missing parameter - ");
            m.append(param_name);
            Err(VaultError::InvalidArguments(m))
        },
    }
}

/// Decide the key source for the cipher commands: exactly one of a key file
/// and a passphrase must be named, and the named one fills its slot.
pub fn parse_key_args(
    params: &mut CommandParams,
    key_arg: &Option<&str>,
    phrase_arg: &Option<&str>,
) -> (r: Result<(), VaultError>)
    ensures
        r is Ok <==> one_key_source(*key_arg, *phrase_arg),
        final(params).command == old(params).command,
        io_fields_unchanged(*old(params), *final(params)),
        *key_arg matches Some(k) ==> (*phrase_arg is None ==> {
            &&& final(params).key_file_name@ == old(params).key_file_name@ + k@
            &&& final(params).key_passphrase == old(params).key_passphrase
            &&& final(params).use_key_passphrase == old(params).use_key_passphrase
        }),
        *phrase_arg matches Some(p) ==> (*key_arg is None ==> {
            &&& final(params).key_file_name == old(params).key_file_name
            &&& final(params).key_passphrase@ == old(params).key_passphrase@ + p@
            &&& final(params).use_key_passphrase == true
        }),
        *key_arg is Some && *phrase_arg is Some ==> {
            &&& key_fields_unchanged(*old(params), *final(params))
            &&& (r->Err_0 matches VaultError::InvalidArguments(m) && m@
                == "You cannot specify both a key file and a passphrase. Please pick one or the other."@)
        },
        *key_arg is None && *phrase_arg is None ==> {
            &&& key_fields_unchanged(*old(params), *final(params))
            &&& (r->Err_0 matches VaultError::InvalidArguments(m) && m@
                == "You must specify either a key file or a key passphrase."@)
        },
{
    if key_arg.is_some() && phrase_arg.is_some() {
        return Err(
            VaultError::InvalidArguments(
                String::from_str(
                    "You cannot specify both a key file and a passphrase. Please pick one or the other.",
                ),
            ),
        );
    }
    match key_arg {
        Some(k) => {
            params.key_file_name.append(k);
        },
        None => {
            match phrase_arg {
                Some(p) => {
                    params.key_passphrase.append(p);
                    params.use_key_passphrase = true;
                },
                None => {
                    return Err(
                        VaultError::InvalidArguments(
                            String::from_str(
                                "You must specify either a key file or a key passphrase.",
                            ),
                        ),
                    );
                },
            }
        },
    }
    Ok(())
}

/// Fill `params` from a command line that the surrounding program has already
/// broken into a subcommand and its argument values. The cipher commands
/// take an input path, an output path and one key source; key generation
/// takes a key file path and, optionally, a passphrase. Anything else is
/// rejected with a message naming what is wrong.
pub fn parse_command(
    params: &mut CommandParams,
    subcommand: &Option<String>,
    in_arg: &Option<&str>,
    out_arg: &Option<&str>,
    key_arg: &Option<&str>,
    phrase_arg: &Option<&str>,
) -> (r: Result<(), VaultError>)
    ensures
        r is Ok <==> parse_command_accepts(*subcommand, *in_arg, *out_arg, *key_arg, *phrase_arg),
        *subcommand matches Some(c) ==> final(params).command@ == old(params).command@ + c@,
        *subcommand is None ==> {
            &&& *final(params) == *old(params)
            &&& (r->Err_0 matches VaultError::InvalidArguments(m) && m@ == "No command specified."@)
        },
        *subcommand matches Some(c) ==> ((!is_cipher_command(c@) && c@ != "genkey"@) ==> {
            &&& io_fields_unchanged(*old(params), *final(params))
            &&& key_fields_unchanged(*old(params), *final(params))
            &&& (r->Err_0 matches VaultError::InvalidArguments(m) && m@ == "Invalid command - "@
                + c@)
        }),
        *subcommand matches Some(c) ==> (is_cipher_command(c@) ==> {
            &&& (*in_arg is None ==> {
                &&& io_fields_unchanged(*old(params), *final(params))
                &&& key_fields_unchanged(*old(params), *final(params))
                &&& (r->Err_0 matches VaultError::InvalidArguments(m) && m@
                    == "Missing parameter - "@ + "in"@)
            })
            &&& (*in_arg matches Some(s) ==> final(params).in_file_name@
                == old(params).in_file_name@ + s@)
            &&& (*in_arg is Some && *out_arg is None ==> {
                &&& final(params).out_file_name == old(params).out_file_name
                &&& key_fields_unchanged(*old(params), *final(params))
                &&& (r->Err_0 matches VaultError::InvalidArguments(m) && m@
                    == "Missing parameter - "@ + "out"@)
            })
            &&& (*out_arg matches Some(s) ==> (*in_arg is Some ==> final(params).out_file_name@
                == old(params).out_file_name@ + s@))
            &&& (*key_arg matches Some(k) ==> ((*in_arg is Some && *out_arg is Some
                && *phrase_arg is None) ==> {
                &&& final(params).key_file_name@ == old(params).key_file_name@ + k@
                &&& final(params).key_passphrase == old(params).key_passphrase
                &&& final(params).use_key_passphrase == old(params).use_key_passphrase
            }))
            &&& (*phrase_arg matches Some(p) ==> ((*in_arg is Some && *out_arg is Some
                && *key_arg is None) ==> {
                &&& final(params).key_file_name == old(params).key_file_name
                &&& final(params).key_passphrase@ == old(params).key_passphrase@ + p@
                &&& final(params).use_key_passphrase == true
            }))
            &&& ((*in_arg is Some && *out_arg is Some && *key_arg is Some && *phrase_arg is Some)
                ==> {
                &&& key_fields_unchanged(*old(params), *final(params))
                &&& (r->Err_0 matches VaultError::InvalidArguments(m) && m@
                    == "You cannot specify both a key file and a passphrase. Please pick one or the other."@)
            })
            &&& ((*in_arg is Some && *out_arg is Some && *key_arg is None && *phrase_arg is None)
                ==> {
                &&& key_fields_unchanged(*old(params), *final(params))
                &&& (r->Err_0 matches VaultError::InvalidArguments(m) && m@
                    == "You must specify either a key file or a key passphrase."@)
            })
        }),
        *subcommand matches Some(c) ==> (c@ == "genkey"@ ==> {
            &&& io_fields_unchanged(*old(params), *final(params))
            &&& (*key_arg is None ==> {
                &&& key_fields_unchanged(*old(params), *final(params))
                &&& (r->Err_0 matches VaultError::InvalidArguments(m) && m@
                    == "Missing parameter - "@ + "key"@)
            })
            &&& (*key_arg matches Some(k) ==> final(params).key_file_name@
                == old(params).key_file_name@ + k@)
            &&& (*phrase_arg matches Some(p) ==> (*key_arg is Some ==> {
                &&& final(params).key_passphrase@ == old(params).key_passphrase@ + p@
                &&& final(params).use_key_passphrase == true
            }))
            &&& (*key_arg is Some && *phrase_arg is None ==> {
                &&& final(params).key_passphrase == old(params).key_passphrase
                &&& final(params).use_key_passphrase == old(params).use_key_passphrase
            })
        }),
{
    proof {
        reveal_strlit("encrypt");
        reveal_strlit("decrypt");
        reveal_strlit("genkey");
    }
    let c = match subcommand {
        Some(c) => c,
        None => {
            return Err(VaultError::InvalidArguments(String::from_str("No command specified.")));
        },
    };
    params.command.append(c.as_str());
    let encrypt_name = String::from_str("encrypt");
    let decrypt_name = String::from_str("decrypt");
    let genkey_name = String::from_str("genkey");
    if *c == encrypt_name || *c == decrypt_name {
        match parse_arg("in", &mut params.in_file_name, in_arg) {
            Ok(()) => (),
            Err(e) => {
                return Err(e);
            },
        }
        match parse_arg("out", &mut params.out_file_name, out_arg) {
            Ok(()) => (),
            Err(e) => {
                return Err(e);
            },
        }
        parse_key_args(params, key_arg, phrase_arg)
    } else if *c == genkey_name {
        match parse_arg("key", &mut params.key_file_name, key_arg) {
            Ok(()) => (),
            Err(e) => {
                return Err(e);
            },
        }
        match phrase_arg {
            Some(p) => {
                params.key_passphrase.append(p);
                params.use_key_passphrase = true;
            },
            None => (),
        }
        Ok(())
    } else {
        let mut m = String::from_str("Invalid command - ");
        m.append(c.as_str());
        Err(VaultError::InvalidArguments(m))
    }
}

} // verus!
