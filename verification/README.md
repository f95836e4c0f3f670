# hdf5

The logic of a Rust binding to the HDF5 C library, written in Verus and
proved against its contracts.

The library (`src/`) holds what the binding decides and computes:

- selections, hyperslabs and point lists, and their raw forms;
- filter pipelines (deflate, shuffle, fletcher32, szip, scale-offset, n-bit,
  Blosc and LZF client data) and their round trips through a creation
  property list;
- datatypes and type descriptors, and the round trip between them;
- dataspaces and extents, and how a new dataset is chunked (including the
  inferred chunk shape);
- what file and dataset property lists read as, with their defaults;
- error stacks and their descriptions;
- opening and creating files, object classes, handles and the bookkeeping of
  the recursive lock around calls into the C library;
- reading a one-dimensional byte dataset as a stream.

Every call into the C library is made by `app/`: it reads property lists and
error stacks, hands the values it got to the library, and carries out what the
library decides. The floating-point part of chunk sizing is there too.

`tests/` exercises the library on concrete values.
