use vstd::prelude::*;

verus! {

/// Operating systems that the tool is released for.
#[derive(Clone, Copy, Debug, PartialEq, Eq, Structural)]
pub enum Os {
    Mac,
    Linux,
    Windows,
}

/// Processor architectures that the tool is released for.
#[derive(Clone, Copy, Debug, PartialEq, Eq, Structural)]
pub enum Arch {
    Aarch64,
    X86,
    X8664,
}

/// How a release archive is packed.
#[derive(Clone, Copy, Debug, PartialEq, Eq, Structural)]
pub enum ArchiveFormat {
    GzipTar,
    Zip,
}

/// The machine the tool is installed for.
#[derive(Clone, Copy, Debug, PartialEq, Eq, Structural)]
pub struct Platform {
    pub os: Os,
    pub arch: Arch,
}

/// The token that names an operating system in release asset names.
pub open spec fn os_token_of(os: Os) -> Seq<char> {
    match os {
        Os::Mac => "Darwin"@,
        Os::Linux => "Linux"@,
        Os::Windows => "Windows"@,
    }
}

/// The token that names an architecture in release asset names.
pub open spec fn arch_token_of(arch: Arch) -> Seq<char> {
    match arch {
        Arch::Aarch64 => "arm64"@,
        Arch::X86 => "i386"@,
        Arch::X8664 => "x86_64"@,
    }
}

/// The archive format that releases use on an operating system.
pub open spec fn archive_format_of(os: Os) -> ArchiveFormat {
    match os {
        Os::Mac => ArchiveFormat::GzipTar,
        Os::Linux => ArchiveFormat::GzipTar,
        Os::Windows => ArchiveFormat::Zip,
    }
}

/// The file extension of an archive format.
pub open spec fn extension_of(format: ArchiveFormat) -> Seq<char> {
    match format {
        ArchiveFormat::GzipTar => "tar.gz"@,
        ArchiveFormat::Zip => "zip"@,
    }
}

/// The file name of the tool's executable on an operating system.
pub open spec fn binary_file_name_of(tool: Seq<char>, os: Os) -> Seq<char> {
    match os {
        Os::Windows => tool + ".exe"@,
        _ => tool,
    }
}

/// The name of the release asset built for a platform:
/// `<tool>_<os token>_<arch token>.<archive extension>`.
pub open spec fn asset_file_name(tool: Seq<char>, platform: Platform) -> Seq<char> {
    tool + "_"@ + os_token_of(platform.os) + "_"@ + arch_token_of(platform.arch) + "."@
        + extension_of(archive_format_of(platform.os))
}

pub fn os_token(os: Os) -> (r: &'static str)
    ensures
        r@ == os_token_of(os),
{
    match os {
        Os::Mac => "Darwin",
        Os::Linux => "Linux",
        Os::Windows => "Windows",
    }
}

pub fn arch_token(arch: Arch) -> (r: &'static str)
    ensures
        r@ == arch_token_of(arch),
{
    match arch {
        Arch::Aarch64 => "arm64",
        Arch::X86 => "i386",
        Arch::X8664 => "x86_64",
    }
}

pub fn archive_format(os: Os) -> (r: ArchiveFormat)
    ensures
        r == archive_format_of(os),
{
    match os {
        Os::Mac => ArchiveFormat::GzipTar,
        Os::Linux => ArchiveFormat::GzipTar,
        Os::Windows => ArchiveFormat::Zip,
    }
}

pub fn archive_extension(format: ArchiveFormat) -> (r: &'static str)
    ensures
        r@ == extension_of(format),
{
    match format {
        ArchiveFormat::GzipTar => "tar.gz",
        ArchiveFormat::Zip => "zip",
    }
}

pub fn binary_file_name(tool: &str, os: Os) -> (r: String)
    ensures
        r@ == binary_file_name_of(tool@, os),
{
    let mut name = String::from_str(tool);
    match os {
        Os::Windows => name.append(".exe"),
        _ => {},
    }
    name
}

/// The name of the release asset that a platform needs.
pub fn expected_asset_name(tool: &str, platform: Platform) -> (r: String)
    ensures
        r@ == asset_file_name(tool@, platform),
{
    let mut name = String::from_str(tool);
    name.append("_");
    name.append(os_token(platform.os));
    name.append("_");
    name.append(arch_token(platform.arch));
    name.append(".");
    name.append(archive_extension(archive_format(platform.os)));
    name
}

} // verus!
