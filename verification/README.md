# pixel-bootctl

A/B boot-slot control for a Google Pixel (Tensor) running Linux: the userspace equivalent of
Android's `bootctl`, for devices whose Android userspace was replaced by a plain Linux
distribution.

Switching slots means two things:

1. Writing the UFS boot-LUN attribute, `1` for slot A and `2` for slot B. This is the switch itself.
   The Pixel kernel has a writable node for it,
   `/sys/devices/platform/<ufs>/pixel/boot_lun_enabled`; on mainline the same WRITE ATTRIBUTE is
   issued through `/dev/bsg/ufs-bsg0`.
2. Updating the per-slot flags in the `devinfo` partition, as bookkeeping. A slot that was switched
   to is marked active but not successful, so that the bootloader rolls back if it never boots;
   `mark-successful` commits it after a good boot.

## Layout

`src/` is the verified library. It decides and computes; it does no input or output.

| module    | what it holds                                                                   |
|-----------|---------------------------------------------------------------------------------|
| `devinfo` | the devinfo image: parsing it, making a slot active, marking a slot successful  |
| `bootlun` | how the boot LUN is written, and the search for the sysfs node                  |
| `ufsbsg`  | the WRITE ATTRIBUTE request and what to make of its completion                  |
| `slot`    | which slot is running                                                           |
| `hexutil` | hex text to bytes and back                                                      |
| `trusty`  | what to make of Trusty IPC system calls                                         |
| `command` | the commands: what each decides, in which order, and what it reports            |
| `text`    | characters, numerals and searches                                               |
| `error`   | the errors                                                                      |

Proof functions whose names start with `law_` state what holds of several functions together.

`app/` is the program around it: arguments, files, system calls and printing.

## Commands

```
pixel-bootctl status [--devinfo PATH]
pixel-bootctl set-active-slot <a|b> [--devinfo PATH] [--boot-lun PATH] [--mark-successful]
pixel-bootctl mark-successful [--devinfo PATH] [--slot <a|b>]
pixel-bootctl probe [--dev PATH] [--port NAME]
pixel-bootctl send --port NAME --hex BYTES [--dev PATH] [--timeout-ms N]
```

Run as root. A switch takes effect at the next boot; make sure that the target slot can boot.

Apache-2.0.
