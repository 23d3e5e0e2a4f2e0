//! The fixed texts the tool works with: the base template written on
//! deactivation, the provider nameserver block appended on activation, and
//! the messages printed for help and for an unrecognized argument.

use vstd::prelude::*;
use vstd::string::*;

use crate::search::contains_seq;
use crate::search::contains_char;
use crate::search::lemma_contains_seq_char;

verus! {

/// The base template: the stock header of the managed file, written whether
/// or not the provider is active.
pub open spec fn spec_default_template() -> Seq<char> {
    "\n# Dynamic resolv.conf(5) file for glibc resolver(3) generated by resolvconf(8)\n#     DO NOT EDIT THIS FILE BY HAND -- YOUR CHANGES WILL BE OVERWRITTEN\n# 127.0.0.53 is the systemd-resolved stub resolver.\n# run \"systemd-resolve --status\" to see details about the actual nameservers.\n"@
}

/// The provider block: two nameserver lines pointing at the provider.
pub open spec fn spec_adguard_dns_server_config() -> Seq<char> {
    "\n# AdGuard DNS \n# https://adguard-dns.com/en/public-dns.html\nnameserver 94.140.14.14\nnameserver 94.149.15.15\n"@
}

/// The whole content written on activation: base template, a separating
/// space, then the provider block.
pub open spec fn spec_activation_content() -> Seq<char> {
    spec_default_template() + " "@ + spec_adguard_dns_server_config()
}

pub fn default_template() -> (r: &'static str)
    ensures
        r@ == spec_default_template(),
{
    "\n# Dynamic resolv.conf(5) file for glibc resolver(3) generated by resolvconf(8)\n#     DO NOT EDIT THIS FILE BY HAND -- YOUR CHANGES WILL BE OVERWRITTEN\n# 127.0.0.53 is the systemd-resolved stub resolver.\n# run \"systemd-resolve --status\" to see details about the actual nameservers.\n"
}

pub fn adguard_dns_server_config() -> (r: &'static str)
    ensures
        r@ == spec_adguard_dns_server_config(),
{
    "\n# AdGuard DNS \n# https://adguard-dns.com/en/public-dns.html\nnameserver 94.140.14.14\nnameserver 94.149.15.15\n"
}

/// Builds the file content for activation.
pub fn activation_content() -> (r: String)
    ensures
        r@ == spec_activation_content(),
{
    let mut s = String::from_str(default_template());
    s.append(" ");
    s.append(adguard_dns_server_config());
    s
}

/// Builds the file content for deactivation: the base template alone.
pub fn deactivation_content() -> (r: String)
    ensures
        r@ == spec_default_template(),
{
    String::from_str(default_template())
}

/// The help text printed when no argument, or the help flag, is given.
pub fn help_message() -> (r: &'static str)
    ensures
        r@ == "\nUsage: sudo cfg-adguard-dns [options...]\n\n        --activate      Activate AdGuard DNS server \n        --deactivate    Deactivate AdGuard DNS server \n        --status        Shows wether AdGuard DNS server is activated or not\n        --help          Display the current help message\n\nDisclaimer: Using this tool will restore the /etc/resolvconf/resolv.conf.d/head file to its default state.\n"@,
{
    "\nUsage: sudo cfg-adguard-dns [options...]\n\n        --activate      Activate AdGuard DNS server \n        --deactivate    Deactivate AdGuard DNS server \n        --status        Shows wether AdGuard DNS server is activated or not\n        --help          Display the current help message\n\nDisclaimer: Using this tool will restore the /etc/resolvconf/resolv.conf.d/head file to its default state.\n"
}

/// The message written to the error stream for an unrecognized argument.
pub fn unknown_arg_message() -> (r: &'static str)
    ensures
        r@ == "Unknown argument. Try `cfg-adguard-dns --help` for more information"@,
{
    "Unknown argument. Try `cfg-adguard-dns --help` for more information"
}

/// The activation content carries the provider block as a contiguous
/// substring and the base template as a prefix; it also trivially contains
/// itself, the full extended template, as one contiguous run.
pub proof fn lemma_activation_content_contains_blocks()
    ensures
        contains_seq(spec_activation_content(), spec_adguard_dns_server_config()),
        contains_seq(spec_activation_content(), spec_default_template()),
        contains_seq(spec_activation_content(), spec_activation_content()),
{
    let hay = spec_activation_content();
    let block = spec_adguard_dns_server_config();
    let base = spec_default_template();
    let mid: int = base.len() as int + " "@.len() as int;
    assert(hay.subrange(mid, mid + block.len() as int) =~= block);
    assert(hay.subrange(0, 0 + base.len() as int) =~= base);
    assert(hay.subrange(0, 0 + hay.len() as int) =~= hay);
}

/// The base template never contains the provider block: the block holds the
/// digit nine (in the provider addresses) and the base template holds no
/// nine anywhere.
pub proof fn lemma_default_template_lacks_provider_block()
    ensures
        !contains_seq(spec_default_template(), spec_adguard_dns_server_config()),
{
    reveal_strlit(
        "\n# Dynamic resolv.conf(5) file for glibc resolver(3) generated by resolvconf(8)\n#     DO NOT EDIT THIS FILE BY HAND -- YOUR CHANGES WILL BE OVERWRITTEN\n# 127.0.0.53 is the systemd-resolved stub resolver.\n# run \"systemd-resolve --status\" to see details about the actual nameservers.\n",
    );
    reveal_strlit(
        "\n# AdGuard DNS \n# https://adguard-dns.com/en/public-dns.html\nnameserver 94.140.14.14\nnameserver 94.149.15.15\n",
    );
    let base = spec_default_template();
    let block = spec_adguard_dns_server_config();
    assert(block[72] == '9');
    assert(contains_char(block, '9'));
    assert(forall|i: int| 0 <= i < base.len() ==> base[i] != '9');
    if contains_seq(base, block) {
        lemma_contains_seq_char(base, block, '9');
        let i = choose|i: int| 0 <= i < base.len() && base[i] == '9';
        assert(false);
    }
}

} // verus!
